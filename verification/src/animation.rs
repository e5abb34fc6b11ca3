//! Sprite-sheet animation bookkeeping and the player's animation state
//! machine.
//!
//! Playback walks the columns of the current sheet row and wraps at the
//! row's frame count; the sprite index is the row-major cell number. The
//! player's animation state is a four-state machine driven by the velocity
//! the sweep achieved, evaluated as an ordered chain of transition checks
//! where the last satisfied check wins.

use vstd::prelude::*;
use vstd::string::StringExecFns;

use crate::body::Velocity;
use crate::math::Vec2;

verus! {

/// One row of a sprite sheet: a named animation, its frame count, the time
/// one frame shows (in sub-seconds), and whether it loops.
#[derive(Clone, Debug)]
pub struct AnimationDefinition {
    pub name: String,
    pub number_of_frames: usize,
    pub frame_time: i64,
    pub repeating: bool,
}

/// A sprite sheet: one animation definition per row, and the sheet's grid
/// dimensions.
#[derive(Clone, Debug)]
pub struct SpriteSheetDefinition {
    pub animation_definitions: Vec<AnimationDefinition>,
    pub rows: usize,
    pub columns: usize,
}

/// Current sheet row (which animation plays).
#[derive(Clone, Copy, PartialEq, Eq, Structural, Debug)]
pub struct Row(pub usize);

/// Current sheet column (which frame of the animation shows).
#[derive(Clone, Copy, PartialEq, Eq, Structural, Debug)]
pub struct Col(pub usize);

impl Default for Row {
    fn default() -> (r: Self)
        ensures
            r.0 == 0,
    {
        Row(0)
    }
}

impl Default for Col {
    fn default() -> (r: Self)
        ensures
            r.0 == 0,
    {
        Col(0)
    }
}

/// The column after one animation step: advance by one, wrapping to zero at
/// the row's frame count when the row is in range.
pub open spec fn advanced_col(sheet: SpriteSheetDefinition, row: int, col: int) -> int {
    let c = col + 1;
    if row < sheet.rows && c >= sheet.animation_definitions@[row].number_of_frames {
        0
    } else {
        c
    }
}

/// Row-major cell number of a sheet position.
pub open spec fn sprite_index(sheet: SpriteSheetDefinition, row: int, col: int) -> int {
    col + sheet.columns * row
}

/// One playback step, taken when the frame timer fires: advances the
/// column (wrapping at the row's frame count) and returns the sprite index
/// to show.
pub fn animate_sprite_step(sheet: &SpriteSheetDefinition, row: &Row, col: &mut Col) -> (index:
    usize)
    requires
        row.0 < sheet.rows ==> row.0 < sheet.animation_definitions@.len(),
        old(col).0 + 1 <= usize::MAX,
        sheet.columns * row.0 + old(col).0 + 1 <= usize::MAX,
    ensures
        final(col).0 == advanced_col(*sheet, row.0 as int, old(col).0 as int),
        index == sprite_index(*sheet, row.0 as int, final(col).0 as int),
{
    col.0 = col.0 + 1;
    if row.0 < sheet.rows {
        let columns = sheet.animation_definitions[row.0].number_of_frames;
        if col.0 >= columns {
            col.0 = 0;
        }
    }
    col.0 + sheet.columns * row.0
}

/// The player's animation states.
#[derive(Clone, Copy, PartialEq, Eq, Structural, Debug)]
pub enum PlayerAnimationUpdate {
    Jump,
    Fall,
    Idle,
    Run,
}

impl Default for PlayerAnimationUpdate {
    fn default() -> (r: Self)
        ensures
            r == PlayerAnimationUpdate::Idle,
    {
        PlayerAnimationUpdate::Idle
    }
}

/// The transition table of the player's animation graph, driven by achieved
/// velocity. Each state's checks run in order and the last satisfied check
/// wins; the closed forms below are exactly that.
pub open spec fn next_player_animation(state: PlayerAnimationUpdate, vel: Vec2)
    -> PlayerAnimationUpdate {
    match state {
        PlayerAnimationUpdate::Jump => if vel.y <= 0 {
            PlayerAnimationUpdate::Fall
        } else {
            PlayerAnimationUpdate::Jump
        },
        PlayerAnimationUpdate::Fall => if vel.y > 0 {
            PlayerAnimationUpdate::Jump
        } else if vel.y == 0 {
            PlayerAnimationUpdate::Idle
        } else {
            PlayerAnimationUpdate::Fall
        },
        PlayerAnimationUpdate::Idle => if vel.x != 0 {
            PlayerAnimationUpdate::Run
        } else if vel.y > 0 {
            PlayerAnimationUpdate::Jump
        } else if vel.y < 0 {
            PlayerAnimationUpdate::Fall
        } else {
            PlayerAnimationUpdate::Idle
        },
        PlayerAnimationUpdate::Run => if vel.x == 0 {
            PlayerAnimationUpdate::Idle
        } else if vel.y > 0 {
            PlayerAnimationUpdate::Jump
        } else if vel.y < 0 {
            PlayerAnimationUpdate::Fall
        } else {
            PlayerAnimationUpdate::Run
        },
    }
}

/// Advances the player's animation state from the velocity the sweep
/// achieved: the per-state transition checks, evaluated in order.
pub fn player_animation_update(action: &mut PlayerAnimationUpdate, vel: &Velocity)
    ensures
        *final(action) == next_player_animation(*old(action), vel@),
{
    match *action {
        PlayerAnimationUpdate::Jump => {
            if vel.0.y <= 0 {
                *action = PlayerAnimationUpdate::Fall;
            }
        },
        PlayerAnimationUpdate::Fall => {
            if vel.0.y == 0 {
                *action = PlayerAnimationUpdate::Idle;
            }
            if vel.0.y > 0 {
                *action = PlayerAnimationUpdate::Jump;
            }
        },
        PlayerAnimationUpdate::Idle => {
            if vel.0.y != 0 && vel.0.y > 0 {
                *action = PlayerAnimationUpdate::Jump;
            }
            if vel.0.y != 0 && vel.0.y < 0 {
                *action = PlayerAnimationUpdate::Fall;
            }
            if vel.0.x != 0 {
                *action = PlayerAnimationUpdate::Run;
            }
        },
        PlayerAnimationUpdate::Run => {
            if vel.0.y != 0 && vel.0.y > 0 {
                *action = PlayerAnimationUpdate::Jump;
            }
            if vel.0.y != 0 && vel.0.y < 0 {
                *action = PlayerAnimationUpdate::Fall;
            }
            if vel.0.x == 0 {
                *action = PlayerAnimationUpdate::Idle;
            }
        },
    }
}

/// The sheet row each player animation state plays.
pub open spec fn player_animation_row(state: PlayerAnimationUpdate) -> int {
    match state {
        PlayerAnimationUpdate::Idle => 5,
        PlayerAnimationUpdate::Run => 1,
        PlayerAnimationUpdate::Fall => 6,
        PlayerAnimationUpdate::Jump => 7,
    }
}

/// Applies a changed animation state to the playback cursor: selects the
/// state's sheet row, rewinds to the first frame, and returns the frame
/// time and looping flag to re-arm the frame timer with.
pub fn update_player_animation(
    action: &PlayerAnimationUpdate,
    sheet: &SpriteSheetDefinition,
    row: &mut Row,
    col: &mut Col,
) -> (timer: (i64, bool))
    requires
        7 < sheet.animation_definitions@.len(),
    ensures
        final(row).0 == player_animation_row(*action),
        final(col).0 == 0,
        timer.0 == sheet.animation_definitions@[player_animation_row(*action)].frame_time,
        timer.1 == sheet.animation_definitions@[player_animation_row(*action)].repeating,
{
    row.0 = match *action {
        PlayerAnimationUpdate::Idle => 5,
        PlayerAnimationUpdate::Run => 1,
        PlayerAnimationUpdate::Fall => 6,
        PlayerAnimationUpdate::Jump => 7,
    };
    let def = &sheet.animation_definitions[row.0];
    col.0 = 0;
    (def.frame_time, def.repeating)
}

/// Whether the sprite should be drawn mirrored after this tick: moving left
/// mirrors, moving right unmirrors, standing still keeps the current flip.
pub fn sprite_flip(vel: &Velocity, flip_x: bool) -> (r: bool)
    ensures
        r == if vel@.x < 0 {
            true
        } else if vel@.x > 0 {
            false
        } else {
            flip_x
        },
{
    if vel.0.x < 0 {
        true
    } else if vel.0.x > 0 {
        false
    } else {
        flip_x
    }
}

/// The player sprite sheet's animation table: eight rows, with frame times
/// in sub-seconds.
pub fn player_animation_definitions() -> (defs: Vec<AnimationDefinition>)
    ensures
        defs@.len() == 8,
        defs@[0].name@ == "death"@ && defs@[0].number_of_frames == 8 && defs@[0].frame_time == 0
            && defs@[0].repeating,
        defs@[1].name@ == "run"@ && defs@[1].number_of_frames == 6 && defs@[1].frame_time == 70
            && defs@[1].repeating,
        defs@[2].name@ == "pushing"@ && defs@[2].number_of_frames == 6 && defs@[2].frame_time
            == 100 && defs@[2].repeating,
        defs@[3].name@ == "attack_no_slash"@ && defs@[3].number_of_frames == 4
            && defs@[3].frame_time == 100 && !defs@[3].repeating,
        defs@[4].name@ == "attack_slash"@ && defs@[4].number_of_frames == 8
            && defs@[4].frame_time == 100 && !defs@[4].repeating,
        defs@[5].name@ == "idle"@ && defs@[5].number_of_frames == 4 && defs@[5].frame_time == 100
            && defs@[5].repeating,
        defs@[6].name@ == "falling"@ && defs@[6].number_of_frames == 3 && defs@[6].frame_time
            == 70 && defs@[6].repeating,
        defs@[7].name@ == "jumping"@ && defs@[7].number_of_frames == 3 && defs@[7].frame_time
            == 70 && defs@[7].repeating,
{
    let mut defs: Vec<AnimationDefinition> = Vec::new();
    defs.push(
        AnimationDefinition {
            name: String::from_str("death"),
            number_of_frames: 8,
            frame_time: 0,
            repeating: true,
        },
    );
    defs.push(
        AnimationDefinition {
            name: String::from_str("run"),
            number_of_frames: 6,
            frame_time: 70,
            repeating: true,
        },
    );
    defs.push(
        AnimationDefinition {
            name: String::from_str("pushing"),
            number_of_frames: 6,
            frame_time: 100,
            repeating: true,
        },
    );
    defs.push(
        AnimationDefinition {
            name: String::from_str("attack_no_slash"),
            number_of_frames: 4,
            frame_time: 100,
            repeating: false,
        },
    );
    defs.push(
        AnimationDefinition {
            name: String::from_str("attack_slash"),
            number_of_frames: 8,
            frame_time: 100,
            repeating: false,
        },
    );
    defs.push(
        AnimationDefinition {
            name: String::from_str("idle"),
            number_of_frames: 4,
            frame_time: 100,
            repeating: true,
        },
    );
    defs.push(
        AnimationDefinition {
            name: String::from_str("falling"),
            number_of_frames: 3,
            frame_time: 70,
            repeating: true,
        },
    );
    defs.push(
        AnimationDefinition {
            name: String::from_str("jumping"),
            number_of_frames: 3,
            frame_time: 70,
            repeating: true,
        },
    );
    defs
}

/// Keeps a sprite-sheet animation playing: the playback system that runs
/// every frame the timer fires. The timer itself is host state; this is the
/// step it drives.
pub struct AnimationPlugin;

impl AnimationPlugin {
    /// One timer expiry on one entity: advance the frame and return the new
    /// sprite index.
    pub fn advance(sheet: &SpriteSheetDefinition, row: &Row, col: &mut Col) -> (index: usize)
        requires
            row.0 < sheet.rows ==> row.0 < sheet.animation_definitions@.len(),
            old(col).0 + 1 <= usize::MAX,
            sheet.columns * row.0 + old(col).0 + 1 <= usize::MAX,
        ensures
            final(col).0 == advanced_col(*sheet, row.0 as int, old(col).0 as int),
            index == sprite_index(*sheet, row.0 as int, final(col).0 as int),
    {
        animate_sprite_step(sheet, row, col)
    }
}

} // verus!
