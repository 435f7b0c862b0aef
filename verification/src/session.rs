//! Session bookkeeping: the registry of controlled devices, coordinate
//! rescaling for outgoing touch traffic, device-name parsing, session id
//! generation, and the controller command set.

use vstd::prelude::*;
use vstd::string::StringExecFns;

use crate::control_msg::{string_from_utf8, ControlMsgView, ScrcpyControlMsg};

verus! {

/// A command from the facade to the session controller. Each connect command
/// makes the controller accept the next incoming socket for that session.
#[derive(Debug, Clone)]
pub enum ControllerCommand {
    ConnectMainControl(String, bool),
    ConnectMainVideo(String, bool),
    ConnectSubControl(String),
    ShutdownMain(String),
    ShutdownSub(String),
}

/// A device frame size in pixels.
#[derive(Debug, Clone, Copy, PartialEq, Eq, Structural)]
pub struct ScreenSize {
    pub width: u32,
    pub height: u32,
}

/// One controlled device, keyed by its session id (`scid`).
#[derive(Debug, Clone)]
pub struct ScrcpyDevice {
    pub device_id: String,
    pub scid: String,
    pub socket_ids: Vec<String>,
    pub name: String,
    pub main: bool,
    pub device_size: ScreenSize,
}

impl ScrcpyDevice {
    /// A device record with a placeholder name and no known size yet.
    pub fn new(device_id: String, scid: String, main: bool, socket_ids: Vec<String>) -> (r:
        ScrcpyDevice)
        ensures
            r.device_id@ == device_id@,
            r.scid@ == scid@,
            r.main == main,
            r.socket_ids == socket_ids,
            r.name@ == "Unknow"@,
            r.device_size == (ScreenSize { width: 0, height: 0 }),
    {
        ScrcpyDevice {
            device_id,
            scid,
            socket_ids,
            name: "Unknow".to_owned(),
            main,
            device_size: ScreenSize { width: 0, height: 0 },
        }
    }
}

/// How many devices in the sequence are marked main.
pub open spec fn spec_main_count(s: Seq<ScrcpyDevice>) -> int
    decreases s.len(),
{
    if s.len() == 0 {
        0
    } else {
        spec_main_count(s.drop_last()) + if s.last().main {
            1int
        } else {
            0int
        }
    }
}

proof fn lemma_main_count_nonneg(s: Seq<ScrcpyDevice>)
    ensures
        spec_main_count(s) >= 0,
    decreases s.len(),
{
    if s.len() > 0 {
        lemma_main_count_nonneg(s.drop_last());
    }
}

proof fn lemma_main_count_same_mains(s1: Seq<ScrcpyDevice>, s2: Seq<ScrcpyDevice>)
    requires
        s1.len() == s2.len(),
        forall|i: int| 0 <= i < s1.len() ==> s1[i].main == s2[i].main,
    ensures
        spec_main_count(s1) == spec_main_count(s2),
    decreases s1.len(),
{
    if s1.len() > 0 {
        lemma_main_count_same_mains(s1.drop_last(), s2.drop_last());
    }
}

/// The devices of `s` whose session id is not `scid`, in order.
pub open spec fn spec_remove_scid(s: Seq<ScrcpyDevice>, scid: Seq<char>) -> Seq<ScrcpyDevice>
    decreases s.len(),
{
    if s.len() == 0 {
        s
    } else {
        let rest = spec_remove_scid(s.drop_last(), scid);
        if s.last().scid@ != scid {
            rest.push(s.last())
        } else {
            rest
        }
    }
}

proof fn lemma_main_count_remove_scid(s: Seq<ScrcpyDevice>, scid: Seq<char>)
    ensures
        spec_main_count(spec_remove_scid(s, scid)) <= spec_main_count(s),
    decreases s.len(),
{
    if s.len() > 0 {
        lemma_main_count_remove_scid(s.drop_last(), scid);
        lemma_main_count_nonneg(spec_remove_scid(s.drop_last(), scid));
        if s.last().scid@ != scid {
            assert(spec_remove_scid(s, scid).drop_last() =~= spec_remove_scid(
                s.drop_last(),
                scid,
            ));
        }
    }
}

/// The process-wide registry of controlled devices. At most one device is
/// the main device at any time.
pub struct DeviceRegistry {
    devices: Vec<ScrcpyDevice>,
}

impl DeviceRegistry {
    /// The devices, in insertion order.
    pub closed spec fn spec_devices(&self) -> Seq<ScrcpyDevice> {
        self.devices@
    }

    /// At most one device is marked main.
    pub open spec fn wf(&self) -> bool {
        spec_main_count(self.spec_devices()) <= 1
    }

    /// Whether some device has this session id.
    pub open spec fn spec_is_controlled(&self, scid: Seq<char>) -> bool {
        exists|i: int|
            #![auto]
            0 <= i < self.spec_devices().len() && self.spec_devices()[i].scid@ == scid
    }

    /// An empty registry.
    pub fn new() -> (r: DeviceRegistry)
        ensures
            r.spec_devices() == Seq::<ScrcpyDevice>::empty(),
            r.wf(),
    {
        let r = DeviceRegistry { devices: Vec::new() };
        proof {
            assert(r.spec_devices() =~= Seq::<ScrcpyDevice>::empty());
        }
        r
    }

    /// How many devices are controlled.
    pub fn len(&self) -> (r: usize)
        ensures
            r == self.spec_devices().len(),
    {
        self.devices.len()
    }

    /// The device at `i`, for walking the registry.
    pub fn get(&self, i: usize) -> (r: &ScrcpyDevice)
        requires
            i < self.spec_devices().len(),
        ensures
            *r == self.spec_devices()[i as int],
    {
        &self.devices[i]
    }

    /// Whether the session id belongs to a controlled device.
    pub fn is_scid_controlled(&self, scid: &String) -> (r: bool)
        ensures
            r == self.spec_is_controlled(scid@),
    {
        let n = self.devices.len();
        let mut i: usize = 0;
        while i < n
            invariant
                0 <= i <= n,
                n == self.spec_devices().len(),
                forall|k: int| #![auto] 0 <= k < i ==> self.spec_devices()[k].scid@ != scid@,
            decreases n - i,
        {
            if self.devices[i].scid == *scid {
                return true;
            }
            i = i + 1;
        }
        false
    }

    /// The index of the main device, if one is controlled.
    pub fn main_device_index(&self) -> (r: Option<usize>)
        ensures
            match r {
                Some(i) => i < self.spec_devices().len() && self.spec_devices()[i as int].main,
                None => forall|k: int|
                    #![auto]
                    0 <= k < self.spec_devices().len() ==> !self.spec_devices()[k].main,
            },
    {
        let n = self.devices.len();
        let mut i: usize = 0;
        while i < n
            invariant
                0 <= i <= n,
                n == self.spec_devices().len(),
                forall|k: int| #![auto] 0 <= k < i ==> !self.spec_devices()[k].main,
            decreases n - i,
        {
            if self.devices[i].main {
                return Some(i);
            }
            i = i + 1;
        }
        None
    }

    /// Adds a device. A new main device is allowed only while no other main
    /// device is controlled, which keeps the registry invariant.
    pub fn add_device(&mut self, device: ScrcpyDevice)
        requires
            old(self).wf(),
            device.main ==> spec_main_count(old(self).spec_devices()) == 0,
        ensures
            final(self).spec_devices() == old(self).spec_devices().push(device),
            final(self).wf(),
    {
        proof {
            lemma_main_count_nonneg(self.devices@);
        }
        self.devices.push(device);
        proof {
            assert(self.devices@.drop_last() =~= old(self).spec_devices());
        }
    }

    /// Removes every device with this session id.
    pub fn remove_device(&mut self, scid: &String)
        requires
            old(self).wf(),
        ensures
            final(self).wf(),
            final(self).spec_devices() == spec_remove_scid(old(self).spec_devices(), scid@),
    {
        let mut all: Vec<ScrcpyDevice> = Vec::new();
        core::mem::swap(&mut all, &mut self.devices);
        let ghost orig = all@;
        let mut kept: Vec<ScrcpyDevice> = Vec::new();
        proof {
            assert(orig.take(0int) =~= Seq::<ScrcpyDevice>::empty());
            assert(kept@ =~= spec_remove_scid(orig.take(0int), scid@));
        }
        let ghost done: int = 0;
        while all.len() > 0
            invariant
                0 <= done <= orig.len(),
                all@ =~= orig.skip(done),
                kept@ == spec_remove_scid(orig.take(done), scid@),
            decreases all@.len(),
        {
            let d = all.remove(0);
            proof {
                assert(d == orig[done]);
                assert(all@ =~= orig.skip(done + 1));
                assert(orig.take(done + 1).drop_last() =~= orig.take(done));
                assert(orig.take(done + 1).last() == d);
            }
            if !(d.scid == *scid) {
                kept.push(d);
            }
            proof {
                done = done + 1;
                assert(kept@ == spec_remove_scid(orig.take(done), scid@));
            }
        }
        proof {
            assert(orig.take(done) =~= orig);
        }
        self.devices = kept;
        proof {
            lemma_main_count_remove_scid(orig, scid@);
        }
    }

    /// Gives the first device with this session id its name; the rest of the
    /// registry, and every other field, is untouched.
    pub fn update_device_name(&mut self, scid: &String, name: String)
        requires
            old(self).wf(),
        ensures
            final(self).wf(),
            final(self).spec_devices().len() == old(self).spec_devices().len(),
            forall|k: int|
                #![trigger final(self).spec_devices()[k]]
                0 <= k < old(self).spec_devices().len() ==> {
                    let d0 = old(self).spec_devices()[k];
                    let d1 = final(self).spec_devices()[k];
                    d1.main == d0.main && d1.scid == d0.scid && d1.device_size == d0.device_size
                        && d1.device_id == d0.device_id && (d0.scid@ != scid@ ==> d1 == d0)
                },
    {
        let n = self.devices.len();
        let mut i: usize = 0;
        while i < n
            invariant
                0 <= i <= n,
                n == self.devices@.len(),
                self.devices@.len() == old(self).spec_devices().len(),
                spec_main_count(old(self).spec_devices()) <= 1,
                forall|k: int| #![auto] i <= k < n ==> self.devices@[k] == old(
                    self,
                ).spec_devices()[k],
                forall|k: int|
                    #![trigger self.devices@[k]]
                    0 <= k < n ==> {
                        let d0 = old(self).spec_devices()[k];
                        let d1 = self.devices@[k];
                        d1.main == d0.main && d1.scid == d0.scid && d1.device_size
                            == d0.device_size && d1.device_id == d0.device_id && (d0.scid@ != scid@
                            ==> d1 == d0)
                    },
            decreases n - i,
        {
            if self.devices[i].scid == *scid {
                let mut d = self.devices.remove(i);
                d.name = name;
                self.devices.insert(i, d);
                proof {
                    lemma_main_count_same_mains(self.devices@, old(self).spec_devices());
                }
                return ;
            }
            i = i + 1;
        }
        proof {
            lemma_main_count_same_mains(self.devices@, old(self).spec_devices());
        }
    }

    /// Records the live size of the first device with this session id.
    pub fn update_device_size(&mut self, scid: &String, size: ScreenSize)
        requires
            old(self).wf(),
        ensures
            final(self).wf(),
            final(self).spec_devices().len() == old(self).spec_devices().len(),
            forall|k: int|
                #![trigger final(self).spec_devices()[k]]
                0 <= k < old(self).spec_devices().len() ==> {
                    let d0 = old(self).spec_devices()[k];
                    let d1 = final(self).spec_devices()[k];
                    d1.main == d0.main && d1.scid == d0.scid && d1.name == d0.name && d1.device_id
                        == d0.device_id && (d0.scid@ != scid@ ==> d1 == d0)
                },
    {
        let n = self.devices.len();
        let mut i: usize = 0;
        while i < n
            invariant
                0 <= i <= n,
                n == self.devices@.len(),
                self.devices@.len() == old(self).spec_devices().len(),
                spec_main_count(old(self).spec_devices()) <= 1,
                forall|k: int| #![auto] i <= k < n ==> self.devices@[k] == old(
                    self,
                ).spec_devices()[k],
                forall|k: int|
                    #![trigger self.devices@[k]]
                    0 <= k < n ==> {
                        let d0 = old(self).spec_devices()[k];
                        let d1 = self.devices@[k];
                        d1.main == d0.main && d1.scid == d0.scid && d1.name == d0.name
                            && d1.device_id == d0.device_id && (d0.scid@ != scid@ ==> d1 == d0)
                    },
            decreases n - i,
        {
            if self.devices[i].scid == *scid {
                let mut d = self.devices.remove(i);
                d.device_size = size;
                self.devices.insert(i, d);
                proof {
                    lemma_main_count_same_mains(self.devices@, old(self).spec_devices());
                }
                return ;
            }
            i = i + 1;
        }
        proof {
            lemma_main_count_same_mains(self.devices@, old(self).spec_devices());
        }
    }
}

/// A coordinate scaled from frame `den` to frame `num`, truncated toward
/// zero as the original integer arithmetic does.
pub open spec fn spec_scale_coord(x: int, num: int, den: int) -> int {
    if x >= 0 {
        x * num / den
    } else {
        -((-x) * num / den)
    }
}

fn scale_coord(x: i32, num: u32, den: u16) -> (r: i32)
    requires
        den != 0,
        -(den as int) <= x as int <= den as int,
        num <= 0xFFFF,
    ensures
        r == spec_scale_coord(x as int, num as int, den as int),
        -(num as int) <= r as int <= num as int,
{
    proof {
        assert((x as int) * (num as int) <= (den as int) * (num as int) && -((den as int) * (
        num as int)) <= (x as int) * (num as int) && (den as int) * (num as int) < 0x100000000
            && (x as int <= 0 ==> 0 <= (-(x as int)) * (num as int) <= (den as int) * (
        num as int))) by (nonlinear_arith)
            requires
                -(den as int) <= x as int <= den as int,
                0 <= num as int <= 0xFFFF,
                0 < den as int <= 0xFFFF,
        ;
    }
    if x >= 0 {
        let q = (x as i64) * (num as i64) / (den as i64);
        proof {
            assert(0 <= (x as int) * (num as int) / (den as int) <= num as int)
                by (nonlinear_arith)
                requires
                    0 <= (x as int) * (num as int) <= (den as int) * (num as int),
                    0 < den as int,
                    0 <= num as int,
            ;
        }
        q as i32
    } else {
        let q = (-(x as i64)) * (num as i64) / (den as i64);
        proof {
            assert(0 <= (-(x as int)) * (num as int) / (den as int) <= num as int)
                by (nonlinear_arith)
                requires
                    0 <= (-(x as int)) * (num as int) <= (den as int) * (num as int),
                    0 < den as int,
                    0 <= num as int,
            ;
        }
        (-q) as i32
    }
}

/// Rescales an outgoing touch or scroll message from its authored frame to
/// the device's live size, overwriting the frame with the device size; every
/// other message passes through unchanged. Coordinates scale linearly,
/// truncated toward zero.
pub fn rescale_control_msg(msg: ScrcpyControlMsg, device_w: u32, device_h: u32) -> (r:
    ScrcpyControlMsg)
    requires
        device_w <= 0xFFFF,
        device_h <= 0xFFFF,
        match msg@ {
            ControlMsgView::InjectTouchEvent { x, y, w, h, .. } => w != 0 && h != 0 && -(w as int)
                <= x as int <= w as int && -(h as int) <= y as int <= h as int,
            ControlMsgView::InjectScrollEvent { x, y, w, h, .. } => w != 0 && h != 0 && -(w as int)
                <= x as int <= w as int && -(h as int) <= y as int <= h as int,
            _ => true,
        },
    ensures
        match msg@ {
            ControlMsgView::InjectTouchEvent {
                action,
                pointer_id,
                x,
                y,
                w,
                h,
                pressure,
                action_button,
                buttons,
            } => r@ == (ControlMsgView::InjectTouchEvent {
                action,
                pointer_id,
                x: spec_scale_coord(x as int, device_w as int, w as int) as i32,
                y: spec_scale_coord(y as int, device_h as int, h as int) as i32,
                w: device_w as u16,
                h: device_h as u16,
                pressure,
                action_button,
                buttons,
            }),
            ControlMsgView::InjectScrollEvent { x, y, w, h, hscroll, vscroll, buttons } => r@
                == (ControlMsgView::InjectScrollEvent {
                x: spec_scale_coord(x as int, device_w as int, w as int) as i32,
                y: spec_scale_coord(y as int, device_h as int, h as int) as i32,
                w: device_w as u16,
                h: device_h as u16,
                hscroll,
                vscroll,
                buttons,
            }),
            _ => r@ == msg@,
        },
{
    match msg {
        ScrcpyControlMsg::InjectTouchEvent {
            action,
            pointer_id,
            x,
            y,
            w,
            h,
            pressure,
            action_button,
            buttons,
        } => ScrcpyControlMsg::InjectTouchEvent {
            action,
            pointer_id,
            x: scale_coord(x, device_w, w),
            y: scale_coord(y, device_h, h),
            w: device_w as u16,
            h: device_h as u16,
            pressure,
            action_button,
            buttons,
        },
        ScrcpyControlMsg::InjectScrollEvent { x, y, w, h, hscroll, vscroll, buttons } => {
            ScrcpyControlMsg::InjectScrollEvent {
                x: scale_coord(x, device_w, w),
                y: scale_coord(y, device_h, h),
                w: device_w as u16,
                h: device_h as u16,
                hscroll,
                vscroll,
                buttons,
            }
        },
        other => other,
    }
}

/// The bytes of a device-name block with its trailing zero padding dropped.
pub open spec fn spec_trim_trailing_zeros(b: Seq<u8>) -> Seq<u8>
    decreases b.len(),
{
    if b.len() == 0 {
        b
    } else if b[b.len() - 1] == 0 {
        spec_trim_trailing_zeros(b.take(b.len() - 1))
    } else {
        b
    }
}

/// Parses the device-name block that opens a control connection: the padding
/// of trailing zero bytes is dropped and the rest must be UTF-8.
pub fn parse_device_name(buf: &Vec<u8>) -> (r: Option<String>)
    ensures
        match r {
            Some(s) => vstd::utf8::valid_utf8(spec_trim_trailing_zeros(buf@))
                && crate::control_msg::spec_str_bytes(s@) == spec_trim_trailing_zeros(buf@),
            None => !vstd::utf8::valid_utf8(spec_trim_trailing_zeros(buf@)),
        },
{
    let mut end = buf.len();
    proof {
        assert(buf@.take(buf@.len() as int) =~= buf@);
    }
    while end > 0 && buf[end - 1] == 0
        invariant
            0 <= end <= buf@.len(),
            spec_trim_trailing_zeros(buf@) == spec_trim_trailing_zeros(buf@.take(end as int)),
        decreases end,
    {
        proof {
            assert(buf@.take(end as int).take(end - 1) =~= buf@.take(end - 1));
        }
        end = end - 1;
    }
    let trimmed = vstd::slice::slice_to_vec(vstd::slice::slice_subrange(buf.as_slice(), 0, end));
    proof {
        assert(trimmed@ =~= buf@.take(end as int));
        if end > 0 {
            assert(spec_trim_trailing_zeros(buf@.take(end as int)) == buf@.take(end as int));
        } else {
            assert(spec_trim_trailing_zeros(buf@.take(0int)) =~= buf@.take(0int));
        }
    }
    string_from_utf8(trimmed)
}

/// Relies on `rand::random`: draws one value of the output type from the
/// thread-local generator. Nothing is promised of the value.
pub assume_specification<T>[ rand::random::<T> ]() -> (r: T)
    where
        rand::distr::StandardUniform: rand::distr::Distribution<T>,
;

/// The character of a session-id digit draw: `0` through `8` name `'1'`
/// through `'9'`.
pub open spec fn spec_scid_digit(d: int) -> char {
    if d == 0 {
        '1'
    } else if d == 1 {
        '2'
    } else if d == 2 {
        '3'
    } else if d == 3 {
        '4'
    } else if d == 4 {
        '5'
    } else if d == 5 {
        '6'
    } else if d == 6 {
        '7'
    } else if d == 7 {
        '8'
    } else {
        '9'
    }
}

fn push_scid_digit(s: &mut String, d: u64)
    requires
        d < 9,
    ensures
        final(s)@ == old(s)@ + seq![spec_scid_digit(d as int)],
{
    if d == 0 {
        s.append("1");
        proof {
            reveal_strlit("1");
            assert(s@ =~= old(s)@ + seq![spec_scid_digit(d as int)]);
        }
    } else if d == 1 {
        s.append("2");
        proof {
            reveal_strlit("2");
            assert(s@ =~= old(s)@ + seq![spec_scid_digit(d as int)]);
        }
    } else if d == 2 {
        s.append("3");
        proof {
            reveal_strlit("3");
            assert(s@ =~= old(s)@ + seq![spec_scid_digit(d as int)]);
        }
    } else if d == 3 {
        s.append("4");
        proof {
            reveal_strlit("4");
            assert(s@ =~= old(s)@ + seq![spec_scid_digit(d as int)]);
        }
    } else if d == 4 {
        s.append("5");
        proof {
            reveal_strlit("5");
            assert(s@ =~= old(s)@ + seq![spec_scid_digit(d as int)]);
        }
    } else if d == 5 {
        s.append("6");
        proof {
            reveal_strlit("6");
            assert(s@ =~= old(s)@ + seq![spec_scid_digit(d as int)]);
        }
    } else if d == 6 {
        s.append("7");
        proof {
            reveal_strlit("7");
            assert(s@ =~= old(s)@ + seq![spec_scid_digit(d as int)]);
        }
    } else if d == 7 {
        s.append("8");
        proof {
            reveal_strlit("8");
            assert(s@ =~= old(s)@ + seq![spec_scid_digit(d as int)]);
        }
    } else {
        s.append("9");
        proof {
            reveal_strlit("9");
            assert(s@ =~= old(s)@ + seq![spec_scid_digit(d as int)]);
        }
    }
}

/// Draws a fresh session id: eight decimal digits that open with "10", the
/// remaining six drawn from '1' to '9', so the id always fits a 32-bit
/// integer when read as hex and never holds a zero.
pub fn gen_scid() -> (r: String)
    ensures
        r@.len() == 8,
        r@[0] == '1',
        r@[1] == '0',
        forall|i: int| 2 <= i < 8 ==> '1' <= #[trigger] r@[i] <= '9',
{
    let mut s: String = "10".to_owned();
    proof {
        reveal_strlit("10");
        assert(s@.len() == 2 && s@[0] == '1' && s@[1] == '0');
    }
    let mut i: usize = 0;
    while i < 6
        invariant
            0 <= i <= 6,
            s@.len() == 2 + i,
            s@[0] == '1',
            s@[1] == '0',
            forall|k: int| 2 <= k < s@.len() ==> '1' <= #[trigger] s@[k] <= '9',
        decreases 6 - i,
    {
        let draw: u64 = rand::random::<u64>();
        let d = draw % 9;
        push_scid_digit(&mut s, d);
        proof {
            assert('1' <= spec_scid_digit(d as int) <= '9');
        }
        i = i + 1;
    }
    s
}

/// Per-session client bookkeeping kept by the facade.
#[derive(Debug, Clone)]
pub struct ClientInfo {
    pub device_name: String,
    pub device_id: String,
    pub scid: String,
    pub width: i32,
    pub height: i32,
}

impl ClientInfo {
    /// A record for a new session, before its size is known.
    pub fn new(device_name: String, device_id: String, scid: String) -> (r: ClientInfo)
        ensures
            r.device_name@ == device_name@,
            r.device_id@ == device_id@,
            r.scid@ == scid@,
            r.width == 0,
            r.height == 0,
    {
        ClientInfo { device_name, device_id, scid, width: 0, height: 0 }
    }

    /// Records the client's frame size.
    pub fn set_size(&mut self, width: i32, height: i32)
        ensures
            final(self).width == width,
            final(self).height == height,
            final(self).device_name == old(self).device_name,
            final(self).device_id == old(self).device_id,
            final(self).scid == old(self).scid,
    {
        self.width = width;
        self.height = height;
    }
}

} // verus!
