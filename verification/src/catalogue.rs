//! The catalogue of clips that come with the character model.

use crate::units::NORMAL_SPEED;
use vstd::prelude::*;

verus! {

/// Where the engine finds the scene of the character model.
pub const SCENE_PATH: &'static str = "mixamo_character_2.glb#Scene0";

/// The descriptor of one clip.
#[derive(Debug)]
pub struct AnimationParams {
    /// Where the engine finds the clip: a file and a label within it.
    pub path: String,
    /// The name under which the clip is shown.
    pub name: String,
    /// The speed at which the clip is meant to play, in thousandths.
    pub playback_speed: i64,
}

/// What an [`AnimationParams`] holds.
pub struct AnimationParamsView {
    pub path: Seq<char>,
    pub name: Seq<char>,
    pub playback_speed: i64,
}

impl View for AnimationParams {
    type V = AnimationParamsView;

    open spec fn view(&self) -> AnimationParamsView {
        AnimationParamsView {
            path: self.path@,
            name: self.name@,
            playback_speed: self.playback_speed,
        }
    }
}

impl AnimationParams {
    /// The descriptor of the clip at `path`, shown as `name`, at normal speed.
    pub fn new(path: &str, name: &str) -> (params: Self)
        ensures
            params@ == (AnimationParamsView {
                path: path@,
                name: name@,
                playback_speed: NORMAL_SPEED,
            }),
    {
        Self { path: path.to_string(), name: name.to_string(), playback_speed: NORMAL_SPEED }
    }
}

impl Default for AnimationParams {
    /// A descriptor with no path, no name and speed zero.
    fn default() -> (params: Self)
        ensures
            params@ == (AnimationParamsView {
                path: Seq::empty(),
                name: Seq::empty(),
                playback_speed: 0,
            }),
    {
        Self { path: String::new(), name: String::new(), playback_speed: 0 }
    }
}

/// The descriptors of all clips, in the order of their labels in the model file.
#[derive(Debug)]
pub struct AnimationsMetadata(pub Vec<AnimationParams>);

impl View for AnimationsMetadata {
    type V = Seq<AnimationParamsView>;

    open spec fn view(&self) -> Seq<AnimationParamsView> {
        Seq::new(self.0@.len(), |i: int| self.0@[i]@)
    }
}

/// The character that stands for the digit `d`.
pub open spec fn digit(d: nat) -> char {
    if d == 0 {
        '0'
    } else if d == 1 {
        '1'
    } else if d == 2 {
        '2'
    } else if d == 3 {
        '3'
    } else if d == 4 {
        '4'
    } else if d == 5 {
        '5'
    } else if d == 6 {
        '6'
    } else if d == 7 {
        '7'
    } else if d == 8 {
        '8'
    } else {
        '9'
    }
}

/// The number `n` written in decimal digits.
pub open spec fn decimal(n: nat) -> Seq<char>
    decreases n,
{
    if n < 10 {
        seq![digit(n)]
    } else {
        decimal(n / 10).push(digit(n % 10))
    }
}

/// The locator of the clip with label `index` in the model file.
pub open spec fn clip_path(index: nat) -> Seq<char> {
    "all_animations_7.glb#Animation"@ + decimal(index)
}

/// The names of the bundled clips, in the order of their labels.
pub open spec fn clip_names() -> Seq<Seq<char>> {
    seq![
        "TPose"@,
        "ClimbDown"@,
        "CrouchWalk"@,
        "FallOpen"@,
        "FallDiagonal"@,
        "FallHeadDown"@,
        "RunSprint"@,
        "WallHang"@,
        "IdleStand"@,
        "DashPose"@,
        "RunFast"@,
        "RunJog"@,
        "Walk"@,
        "WalkStride"@,
        "JumpAscent"@,
        "LadderHandsWide"@,
        "LadderHandsMedium"@,
        "WallSlide"@,
    ]
}

/// The bundled catalogue: clip `i` has the `i`-th name, lies at label `i` of
/// the model file, and plays at normal speed.
pub open spec fn bundled() -> Seq<AnimationParamsView> {
    Seq::new(
        clip_names().len(),
        |i: int|
            AnimationParamsView {
                path: clip_path(i as nat),
                name: clip_names()[i],
                playback_speed: NORMAL_SPEED,
            },
    )
}

impl Default for AnimationsMetadata {
    /// A catalogue without clips.
    fn default() -> (catalogue: Self)
        ensures
            catalogue@ == Seq::<AnimationParamsView>::empty(),
    {
        AnimationsMetadata(Vec::new())
    }
}

impl AnimationsMetadata {
    /// The bundled catalogue.
    pub fn new() -> (catalogue: Self)
        ensures
            catalogue@ == bundled(),
    {
        let catalogue = AnimationsMetadata(
            vec![
                AnimationParams::new("all_animations_7.glb#Animation0", "TPose"),
                AnimationParams::new("all_animations_7.glb#Animation1", "ClimbDown"),
                AnimationParams::new("all_animations_7.glb#Animation2", "CrouchWalk"),
                AnimationParams::new("all_animations_7.glb#Animation3", "FallOpen"),
                AnimationParams::new("all_animations_7.glb#Animation4", "FallDiagonal"),
                AnimationParams::new("all_animations_7.glb#Animation5", "FallHeadDown"),
                AnimationParams::new("all_animations_7.glb#Animation6", "RunSprint"),
                AnimationParams::new("all_animations_7.glb#Animation7", "WallHang"),
                AnimationParams::new("all_animations_7.glb#Animation8", "IdleStand"),
                AnimationParams::new("all_animations_7.glb#Animation9", "DashPose"),
                AnimationParams::new("all_animations_7.glb#Animation10", "RunFast"),
                AnimationParams::new("all_animations_7.glb#Animation11", "RunJog"),
                AnimationParams::new("all_animations_7.glb#Animation12", "Walk"),
                AnimationParams::new("all_animations_7.glb#Animation13", "WalkStride"),
                AnimationParams::new("all_animations_7.glb#Animation14", "JumpAscent"),
                AnimationParams::new("all_animations_7.glb#Animation15", "LadderHandsWide"),
                AnimationParams::new("all_animations_7.glb#Animation16", "LadderHandsMedium"),
                AnimationParams::new("all_animations_7.glb#Animation17", "WallSlide"),
            ],
        );
        proof {
            lemma_paths_are_labels();
            assert(catalogue@ =~= bundled());
        }
        catalogue
    }

    /// The number of clips.
    pub fn len(&self) -> (len: usize)
        ensures
            len == self@.len(),
    {
        self.0.len()
    }
}

/// Each locator that the bundled catalogue writes out is the file's name
/// followed by the clip's label.
proof fn lemma_paths_are_labels()
    ensures
        "all_animations_7.glb#Animation0"@ == clip_path(0),
        "all_animations_7.glb#Animation1"@ == clip_path(1),
        "all_animations_7.glb#Animation2"@ == clip_path(2),
        "all_animations_7.glb#Animation3"@ == clip_path(3),
        "all_animations_7.glb#Animation4"@ == clip_path(4),
        "all_animations_7.glb#Animation5"@ == clip_path(5),
        "all_animations_7.glb#Animation6"@ == clip_path(6),
        "all_animations_7.glb#Animation7"@ == clip_path(7),
        "all_animations_7.glb#Animation8"@ == clip_path(8),
        "all_animations_7.glb#Animation9"@ == clip_path(9),
        "all_animations_7.glb#Animation10"@ == clip_path(10),
        "all_animations_7.glb#Animation11"@ == clip_path(11),
        "all_animations_7.glb#Animation12"@ == clip_path(12),
        "all_animations_7.glb#Animation13"@ == clip_path(13),
        "all_animations_7.glb#Animation14"@ == clip_path(14),
        "all_animations_7.glb#Animation15"@ == clip_path(15),
        "all_animations_7.glb#Animation16"@ == clip_path(16),
        "all_animations_7.glb#Animation17"@ == clip_path(17),
{
    reveal_with_fuel(decimal, 2);
    reveal_strlit("all_animations_7.glb#Animation");
    reveal_strlit("all_animations_7.glb#Animation0");
    reveal_strlit("all_animations_7.glb#Animation1");
    reveal_strlit("all_animations_7.glb#Animation2");
    reveal_strlit("all_animations_7.glb#Animation3");
    reveal_strlit("all_animations_7.glb#Animation4");
    reveal_strlit("all_animations_7.glb#Animation5");
    reveal_strlit("all_animations_7.glb#Animation6");
    reveal_strlit("all_animations_7.glb#Animation7");
    reveal_strlit("all_animations_7.glb#Animation8");
    reveal_strlit("all_animations_7.glb#Animation9");
    reveal_strlit("all_animations_7.glb#Animation10");
    reveal_strlit("all_animations_7.glb#Animation11");
    reveal_strlit("all_animations_7.glb#Animation12");
    reveal_strlit("all_animations_7.glb#Animation13");
    reveal_strlit("all_animations_7.glb#Animation14");
    reveal_strlit("all_animations_7.glb#Animation15");
    reveal_strlit("all_animations_7.glb#Animation16");
    reveal_strlit("all_animations_7.glb#Animation17");
}

} // verus!
