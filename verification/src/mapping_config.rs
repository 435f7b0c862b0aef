//! The mapping configuration: typed records for every gesture kind, with
//! validation of the limits a configuration must meet before it is
//! activated. Sensitivities and scale factors are stored in thousandths, so
//! the whole configuration is made of plain integers.

use vstd::prelude::*;

use crate::effect::Position;

verus! {

/// A pad center must lie at least this many pixels inside the mask.
pub const FPS_MARGIN: i64 = 25;

/// Each mapping kind may appear at most this many times in one
/// configuration; the runtime addresses instances by kind and index.
pub const MAX_MAPPINGS_PER_KIND: u32 = 32;

/// A button chord, each button named in its serialized spelling.
#[derive(Debug, Clone)]
pub struct ButtonBinding {
    pub keys: Vec<String>,
}

impl ButtonBinding {
    /// A chord of the given button names.
    pub fn new(keys: Vec<String>) -> (r: ButtonBinding)
        ensures
            r.keys == keys,
    {
        ButtonBinding { keys }
    }
}

/// The source that drives a direction pad: a four-button chord layout or a
/// gamepad stick named by its two axes.
#[derive(Debug, Clone)]
pub enum DirectionBinding {
    Button { up: ButtonBinding, down: ButtonBinding, left: ButtonBinding, right: ButtonBinding },
    JoyStick { x: String, y: String },
}

/// When a mouse-driven cast releases its pointer.
#[derive(Debug, Clone, Copy, PartialEq, Eq, Structural)]
pub enum MouseCastReleaseMode {
    OnPress,
    OnRelease,
    OnSecondPress,
}

/// When a pad-driven cast releases its pointer.
#[derive(Debug, Clone, Copy, PartialEq, Eq, Structural)]
pub enum PadCastReleaseMode {
    OnRelease,
    OnSecondPress,
}

#[derive(Debug, Clone)]
pub struct MappingSingleTap {
    pub position: Position,
    pub note: String,
    pub pointer_id: u64,
    pub duration: u64,
    pub sync: bool,
    pub bind: ButtonBinding,
}

#[derive(Debug, Clone)]
pub struct MappingRepeatTap {
    pub position: Position,
    pub note: String,
    pub pointer_id: u64,
    pub duration: u64,
    pub interval: u32,
    pub bind: ButtonBinding,
}

/// One press of a multiple tap: wait, press at `position`, hold, release.
#[derive(Debug, Clone, Copy, PartialEq, Eq, Structural)]
pub struct MappingMultipleTapItem {
    pub position: Position,
    pub duration: u64,
    pub wait: u64,
}

#[derive(Debug, Clone)]
pub struct MappingMultipleTap {
    pub note: String,
    pub pointer_id: u64,
    pub items: Vec<MappingMultipleTapItem>,
    pub bind: ButtonBinding,
}

#[derive(Debug, Clone)]
pub struct MappingSwipe {
    pub note: String,
    pub pointer_id: u64,
    pub positions: Vec<Position>,
    pub interval: u64,
    pub bind: ButtonBinding,
}

#[derive(Debug, Clone)]
pub struct MappingDirectionPad {
    pub note: String,
    pub pointer_id: u64,
    pub position: Position,
    pub initial_duration: u64,
    /// Semi-axis of the pad ellipse along x, in pixels.
    pub max_offset_x: u32,
    /// Semi-axis of the pad ellipse along y, in pixels.
    pub max_offset_y: u32,
    pub bind: DirectionBinding,
}

#[derive(Debug, Clone)]
pub struct MappingMouseCastSpell {
    pub note: String,
    pub pointer_id: u64,
    pub position: Position,
    pub center: Position,
    /// Horizontal aim scale, in thousandths.
    pub horizontal_scale_factor: u32,
    /// Vertical aim scale, in thousandths.
    pub vertical_scale_factor: u32,
    pub drag_radius: u32,
    pub cast_radius: u32,
    pub release_mode: MouseCastReleaseMode,
    pub cast_no_direction: bool,
    pub bind: ButtonBinding,
}

#[derive(Debug, Clone)]
pub struct MappingPadCastSpell {
    pub note: String,
    pub pointer_id: u64,
    pub position: Position,
    pub release_mode: PadCastReleaseMode,
    pub drag_radius: u32,
    pub block_direction_pad: bool,
    pub pad_bind: DirectionBinding,
    pub bind: ButtonBinding,
}

#[derive(Debug, Clone)]
pub struct MappingCancelCast {
    pub note: String,
    pub position: Position,
    pub bind: ButtonBinding,
}

#[derive(Debug, Clone)]
pub struct MappingObservation {
    pub note: String,
    pub pointer_id: u64,
    pub position: Position,
    /// Horizontal sensitivity, in thousandths.
    pub sensitivity_x: u32,
    /// Vertical sensitivity, in thousandths.
    pub sensitivity_y: u32,
    pub bind: ButtonBinding,
}

#[derive(Debug, Clone)]
pub struct MappingFps {
    pub note: String,
    pub pointer_id: u64,
    pub position: Position,
    /// Horizontal sensitivity, in thousandths.
    pub sensitivity_x: u32,
    /// Vertical sensitivity, in thousandths.
    pub sensitivity_y: u32,
    pub bind: ButtonBinding,
}

#[derive(Debug, Clone)]
pub struct MappingFire {
    pub note: String,
    pub pointer_id: u64,
    pub position: Position,
    /// Horizontal sensitivity, in thousandths.
    pub sensitivity_x: u32,
    /// Vertical sensitivity, in thousandths.
    pub sensitivity_y: u32,
    pub bind: ButtonBinding,
}

#[derive(Debug, Clone)]
pub struct MappingRawInput {
    pub note: String,
    pub position: Position,
    pub bind: ButtonBinding,
}

#[derive(Debug, Clone)]
pub struct MappingScript {
    pub position: Position,
    pub note: String,
    pub pressed_script: String,
    pub released_script: String,
    pub held_script: String,
    pub interval: u64,
    pub bind: ButtonBinding,
}

/// One item of a mapping configuration.
#[derive(Debug, Clone)]
pub enum MappingType {
    SingleTap(MappingSingleTap),
    RepeatTap(MappingRepeatTap),
    MultipleTap(MappingMultipleTap),
    Swipe(MappingSwipe),
    DirectionPad(MappingDirectionPad),
    MouseCastSpell(MappingMouseCastSpell),
    PadCastSpell(MappingPadCastSpell),
    CancelCast(MappingCancelCast),
    Observation(MappingObservation),
    Fps(MappingFps),
    Fire(MappingFire),
    RawInput(MappingRawInput),
    Script(MappingScript),
}

impl MappingType {
    /// The structural condition each kind puts on its own record within a
    /// canvas: a multiple tap needs at least one item, a swipe at least one
    /// position, and an aim pad a center at least `FPS_MARGIN` pixels inside
    /// every edge of the canvas. Scripts must additionally parse, which
    /// `validate_mapping_config` checks.
    pub open spec fn spec_structurally_valid(&self, canvas: CanvasSize) -> bool {
        match self {
            MappingType::MultipleTap(m) => m.items@.len() > 0,
            MappingType::Swipe(m) => m.positions@.len() > 0,
            MappingType::Fps(m) => m.position.x > FPS_MARGIN && m.position.y > FPS_MARGIN
                && m.position.x + FPS_MARGIN < canvas.width && m.position.y + FPS_MARGIN
                < canvas.height,
            _ => true,
        }
    }
}

/// Validation hook every mapping record answers to.
pub trait ValidateMappingConfig {
    /// Checks the record against its own structural rules.
    fn validate(&self) -> Result<(), String>;
}

/// The virtual canvas a configuration is authored in.
#[derive(Debug, Clone, Copy, PartialEq, Eq, Structural)]
pub struct CanvasSize {
    pub width: u32,
    pub height: u32,
}

/// A mapping configuration as loaded from disk.
#[derive(Debug, Clone)]
pub struct MappingConfig {
    pub version: String,
    pub original_size: CanvasSize,
    pub mappings: Vec<MappingType>,
}

/// The default configuration: an empty mapping set on a 2560 x 1440 canvas.
pub fn default_mapping_config() -> (r: MappingConfig)
    ensures
        r.version@ == "0.0.1"@,
        r.original_size == (CanvasSize { width: 2560, height: 1440 }),
        r.mappings@.len() == 0,
{
    MappingConfig {
        version: "0.0.1".to_owned(),
        original_size: CanvasSize { width: 2560, height: 1440 },
        mappings: Vec::new(),
    }
}

/// Which kind of gesture a mapping is, for counting instances per kind.
pub open spec fn spec_kind_index(m: MappingType) -> int {
    match m {
        MappingType::SingleTap(_) => 0,
        MappingType::RepeatTap(_) => 1,
        MappingType::MultipleTap(_) => 2,
        MappingType::Swipe(_) => 3,
        MappingType::DirectionPad(_) => 4,
        MappingType::MouseCastSpell(_) => 5,
        MappingType::PadCastSpell(_) => 6,
        MappingType::CancelCast(_) => 7,
        MappingType::Observation(_) => 8,
        MappingType::Fps(_) => 9,
        MappingType::Fire(_) => 10,
        MappingType::RawInput(_) => 11,
        MappingType::Script(_) => 12,
    }
}

fn kind_index(m: &MappingType) -> (r: usize)
    ensures
        r == spec_kind_index(*m),
        r < 13,
{
    match m {
        MappingType::SingleTap(_) => 0,
        MappingType::RepeatTap(_) => 1,
        MappingType::MultipleTap(_) => 2,
        MappingType::Swipe(_) => 3,
        MappingType::DirectionPad(_) => 4,
        MappingType::MouseCastSpell(_) => 5,
        MappingType::PadCastSpell(_) => 6,
        MappingType::CancelCast(_) => 7,
        MappingType::Observation(_) => 8,
        MappingType::Fps(_) => 9,
        MappingType::Fire(_) => 10,
        MappingType::RawInput(_) => 11,
        MappingType::Script(_) => 12,
    }
}

/// How many mappings in the prefix of length `n` are of the kind with this
/// index.
pub open spec fn spec_kind_count(s: Seq<MappingType>, kind: int, n: int) -> int
    decreases n,
{
    if n <= 0 {
        0
    } else {
        spec_kind_count(s, kind, n - 1) + if spec_kind_index(s[n - 1]) == kind {
            1int
        } else {
            0int
        }
    }
}

/// Whether a whole configuration passes validation, apart from script
/// parsing: every kind appears at most 32 times and every record meets its
/// own structural rule within the authored canvas.
pub open spec fn spec_config_structurally_valid(
    mappings: Seq<MappingType>,
    canvas: CanvasSize,
) -> bool {
    &&& forall|kind: int|
        0 <= kind < 13 ==> spec_kind_count(mappings, kind, mappings.len() as int)
            <= MAX_MAPPINGS_PER_KIND
    &&& forall|i: int|
        0 <= i < mappings.len() ==> (#[trigger] mappings[i]).spec_structurally_valid(canvas)
}

proof fn lemma_kind_count_monotonic(s: Seq<MappingType>, kind: int, n1: int, n2: int)
    requires
        0 <= n1 <= n2,
    ensures
        spec_kind_count(s, kind, n1) <= spec_kind_count(s, kind, n2),
    decreases n2,
{
    if n1 < n2 {
        lemma_kind_count_monotonic(s, kind, n1, n2 - 1);
    }
}

/// Checks a configuration against the per-kind instance limit and each
/// record's structural rule within its canvas, and nothing else: it accepts
/// exactly the structurally valid configurations.
pub fn validate_config_structure(mapping_config: &MappingConfig) -> (r: Result<(), String>)
    ensures
        r is Ok <==> spec_config_structurally_valid(
            mapping_config.mappings@,
            mapping_config.original_size,
        ),
{
    let canvas = mapping_config.original_size;
    let mappings = &mapping_config.mappings;
    let n = mappings.len();
    let mut counts: Vec<u32> = Vec::new();
    let mut k: usize = 0;
    while k < 13
        invariant
            counts@.len() == k,
            k <= 13,
            forall|j: int| 0 <= j < k ==> counts@[j] == 0,
        decreases 13 - k,
    {
        counts.push(0);
        k = k + 1;
    }
    let mut i: usize = 0;
    proof {
        assert forall|kind: int| 0 <= kind < 13 implies spec_kind_count(
            mappings@,
            kind,
            0,
        ) == 0 by {}
    }
    while i < n
        invariant
            0 <= i <= n,
            n == mappings@.len(),
            counts@.len() == 13,
            forall|kind: int|
                0 <= kind < 13 ==> counts@[kind] == spec_kind_count(mappings@, kind, i as int),
            forall|kind: int|
                0 <= kind < 13 ==> counts@[kind] <= MAX_MAPPINGS_PER_KIND,
            forall|j: int|
                0 <= j < i ==> (#[trigger] mappings@[j]).spec_structurally_valid(canvas),
            canvas == mapping_config.original_size,
            mappings@ == mapping_config.mappings@,
        decreases n - i,
    {
        let m = &mappings[i];
        let kind = kind_index(m);
        let c = counts[kind] + 1;
        counts.set(kind, c);
        if c > MAX_MAPPINGS_PER_KIND {
            proof {
                lemma_kind_count_monotonic(mappings@, kind as int, i as int + 1, n as int);
                assert(spec_kind_count(mappings@, kind as int, mappings@.len() as int)
                    > MAX_MAPPINGS_PER_KIND);
                if spec_config_structurally_valid(mappings@, canvas) {
                    assert(spec_kind_count(mappings@, kind as int, mappings@.len() as int)
                        <= MAX_MAPPINGS_PER_KIND);
                }
                assert(!spec_config_structurally_valid(mappings@, canvas));
            }
            return Err("a mapping kind appears more than 32 times".to_owned());
        }
        let structurally_ok: bool = match m {
            MappingType::MultipleTap(mm) => mm.items.len() > 0,
            MappingType::Swipe(mm) => mm.positions.len() > 0,
            MappingType::Fps(mm) => mm.position.x > FPS_MARGIN && mm.position.y > FPS_MARGIN
                && mm.position.x < (canvas.width as i64) - FPS_MARGIN && mm.position.y < (
            canvas.height as i64) - FPS_MARGIN,
            _ => true,
        };
        if !structurally_ok {
            proof {
                assert(!mappings@[i as int].spec_structurally_valid(canvas));
                if spec_config_structurally_valid(mappings@, canvas) {
                    assert(mappings@[i as int].spec_structurally_valid(canvas));
                }
                assert(!spec_config_structurally_valid(mappings@, canvas));
            }
            return Err("a mapping record fails its structural rule".to_owned());
        }
        i = i + 1;
    }
    proof {
        assert forall|kind: int| 0 <= kind < 13 implies spec_kind_count(
            mappings@,
            kind,
            mappings@.len() as int,
        ) <= MAX_MAPPINGS_PER_KIND by {
            assert(counts@[kind] == spec_kind_count(mappings@, kind, n as int));
        }
    }
    Ok(())
}

/// Whether some mapping of the configuration is a script mapping; only
/// those can make `validate_mapping_config` reject a structurally valid
/// configuration, by failing to parse.
pub open spec fn spec_has_script_mapping(mappings: Seq<MappingType>) -> bool {
    exists|i: int| 0 <= i < mappings.len() && mappings[i] is Script
}

/// Checks a configuration against the per-kind instance limit and each
/// record's structural rule, then asks every script mapping to parse.
/// It accepts every structurally valid configuration without script
/// mappings; a configuration with script mappings is additionally rejected
/// when one of its scripts fails to parse.
pub fn validate_mapping_config(mapping_config: &MappingConfig) -> (r: Result<(), String>)
    ensures
        r is Ok ==> spec_config_structurally_valid(
            mapping_config.mappings@,
            mapping_config.original_size,
        ),
        !spec_config_structurally_valid(
            mapping_config.mappings@,
            mapping_config.original_size,
        ) ==> r is Err,
        r is Err ==> !spec_config_structurally_valid(
            mapping_config.mappings@,
            mapping_config.original_size,
        ) || spec_has_script_mapping(mapping_config.mappings@),
{
    if let Err(e) = validate_config_structure(mapping_config) {
        return Err(e);
    }
    let mappings = &mapping_config.mappings;
    let n = mappings.len();
    let mut i: usize = 0;
    while i < n
        invariant
            0 <= i <= n,
            n == mappings@.len(),
            mappings@ == mapping_config.mappings@,
            spec_config_structurally_valid(mappings@, mapping_config.original_size),
        decreases n - i,
    {
        if let MappingType::Script(m) = &mappings[i] {
            proof {
                assert(mappings@[i as int] is Script);
                assert(spec_has_script_mapping(mappings@));
            }
            if let Err(e) = crate::script_helper::ScriptAST::new(m.pressed_script.as_str()) {
                return Err(e);
            }
            if let Err(e) = crate::script_helper::ScriptAST::new(m.released_script.as_str()) {
                return Err(e);
            }
            if let Err(e) = crate::script_helper::ScriptAST::new(m.held_script.as_str()) {
                return Err(e);
            }
        }
        i = i + 1;
    }
    Ok(())
}

impl ValidateMappingConfig for MappingSingleTap {
    fn validate(&self) -> Result<(), String> {
        Ok(())
    }
}

impl ValidateMappingConfig for MappingRepeatTap {
    fn validate(&self) -> Result<(), String> {
        Ok(())
    }
}

impl ValidateMappingConfig for MappingMultipleTap {
    fn validate(&self) -> Result<(), String> {
        if self.items.len() == 0 {
            Err("MultipleTap's operation item list is empty".to_owned())
        } else {
            Ok(())
        }
    }
}

impl ValidateMappingConfig for MappingSwipe {
    fn validate(&self) -> Result<(), String> {
        if self.positions.len() == 0 {
            Err("Swipe's position list is empty".to_owned())
        } else {
            Ok(())
        }
    }
}

impl ValidateMappingConfig for MappingFps {
    /// Checks the two margins the record can see on its own, left and top;
    /// the right and bottom margins need the canvas and are enforced by
    /// `validate_config_structure`.
    fn validate(&self) -> (r: Result<(), String>)
        ensures
            r is Ok <==> self.position.x > FPS_MARGIN && self.position.y > FPS_MARGIN,
    {
        if self.position.x <= FPS_MARGIN || self.position.y <= FPS_MARGIN {
            Err("the pad center must lie inside the mask margin".to_owned())
        } else {
            Ok(())
        }
    }
}

} // verus!
