//! A looping sprite-sheet clip driven by elapsed time.
//!
//! A clip is an ordered list of frames, each shown for the same time. Its clock
//! is the index of the frame on show and the time already spent on it. Advancing
//! the clock moves to the next frame each time a frame's time is used up, and
//! goes back to the first frame after the last one.

use vstd::prelude::*;
use vstd::arithmetic::div_mod::{
    lemma_add_mod_noop_right,
    lemma_fundamental_div_mod,
    lemma_fundamental_div_mod_converse_div,
    lemma_fundamental_div_mod_converse_mod,
    lemma_mod_bound,
};

verus! {

/// One cell of a sprite sheet, by its column and row.
#[derive(Clone, Copy, Debug, PartialEq, Eq, Structural)]
pub struct Cell {
    pub column: u32,
    pub row: u32,
}

/// What a sprite shows: a cell of a texture that is cut into a grid of
/// `columns` by `rows` cells of equal size.
#[derive(Clone, Copy, Debug, PartialEq, Eq, Structural)]
pub struct SpriteFrame {
    pub texture: u32,
    pub cell: Cell,
    pub columns: u32,
    pub rows: u32,
}

/// The frame on show after `dt` more microseconds.
///
/// A clip without frames, or whose frames take no time, stands still.
pub open spec fn frame_after(len: nat, frame_time: nat, index: nat, elapsed: nat, dt: nat) -> nat {
    if len == 0 || frame_time == 0 {
        index
    } else {
        (index + (elapsed + dt) / frame_time) % len
    }
}

/// The time spent on the frame on show after `dt` more microseconds.
pub open spec fn elapsed_after(len: nat, frame_time: nat, elapsed: nat, dt: nat) -> nat {
    if len == 0 || frame_time == 0 {
        elapsed
    } else {
        (elapsed + dt) % frame_time
    }
}

/// A looping animation clip.
#[derive(Debug)]
pub struct AnimationClip {
    texture: u32,
    columns: u32,
    rows: u32,
    frames: Vec<Cell>,
    frame_time: u64,
    index: usize,
    elapsed: u64,
}

impl AnimationClip {
    /// The clock points at a frame of the clip and has not used up that
    /// frame's time.
    #[verifier::type_invariant]
    pub closed spec fn valid(self) -> bool {
        &&& self.frames@.len() == 0 ==> self.index == 0
        &&& self.frames@.len() > 0 ==> self.index < self.frames@.len()
        &&& self.frame_time == 0 ==> self.elapsed == 0
        &&& self.frame_time > 0 ==> self.elapsed < self.frame_time
    }

    /// The identifier of the texture that holds the sprite sheet.
    pub closed spec fn texture_id(self) -> u32 {
        self.texture
    }

    /// The number of cells in one row and in one column of the sheet.
    pub closed spec fn grid(self) -> (u32, u32) {
        (self.columns, self.rows)
    }

    /// The frames in playing order.
    pub closed spec fn cells(self) -> Seq<Cell> {
        self.frames@
    }

    /// The microseconds each frame stays on show.
    pub closed spec fn frame_time_spec(self) -> u64 {
        self.frame_time
    }

    /// The index of the frame on show.
    pub closed spec fn index_spec(self) -> usize {
        self.index
    }

    /// The microseconds already spent on the frame on show.
    pub closed spec fn elapsed_spec(self) -> u64 {
        self.elapsed
    }

    /// The frame at `index`, if the clip has one there.
    pub open spec fn frame_at_spec(self, index: usize) -> Option<SpriteFrame> {
        if index < self.cells().len() {
            Some(
                SpriteFrame {
                    texture: self.texture_id(),
                    cell: self.cells()[index as int],
                    columns: self.grid().0,
                    rows: self.grid().1,
                },
            )
        } else {
            None
        }
    }

    /// The clip as it is once `dt` more microseconds have passed.
    pub closed spec fn after(self, dt: u64) -> AnimationClip {
        AnimationClip {
            texture: self.texture,
            columns: self.columns,
            rows: self.rows,
            frames: self.frames,
            frame_time: self.frame_time,
            index: frame_after(
                self.frames@.len(),
                self.frame_time as nat,
                self.index as nat,
                self.elapsed as nat,
                dt as nat,
            ) as usize,
            elapsed: elapsed_after(
                self.frames@.len(),
                self.frame_time as nat,
                self.elapsed as nat,
                dt as nat,
            ) as u64,
        }
    }

    /// Says what passing time does to a clip: the clock moves as
    /// [`frame_after`] and [`elapsed_after`] say, and nothing else changes.
    pub proof fn lemma_after(self, dt: u64)
        requires
            self.valid(),
        ensures
            self.after(dt).valid(),
            self.after(dt).index_spec() == frame_after(
                self.cells().len(),
                self.frame_time_spec() as nat,
                self.index_spec() as nat,
                self.elapsed_spec() as nat,
                dt as nat,
            ),
            self.after(dt).elapsed_spec() == elapsed_after(
                self.cells().len(),
                self.frame_time_spec() as nat,
                self.elapsed_spec() as nat,
                dt as nat,
            ),
            self.after(dt).cells() == self.cells(),
            self.after(dt).frame_time_spec() == self.frame_time_spec(),
            self.after(dt).texture_id() == self.texture_id(),
            self.after(dt).grid() == self.grid(),
    {
        if self.frames@.len() > 0 && self.frame_time > 0 {
            assert(self.frames@.len() == self.frames.len());
            lemma_mod_bound(self.elapsed + dt, self.frame_time as int);
            lemma_mod_bound(
                self.index + (self.elapsed + dt) / (self.frame_time as int),
                self.frames@.len() as int,
            );
        }
    }

    /// A clip on which no time passes stays as it is.
    pub proof fn lemma_after_nothing(self)
        requires
            self.valid(),
        ensures
            self.after(0) == self,
    {
        if self.frames@.len() > 0 && self.frame_time > 0 {
            let d = self.frame_time as int;
            let n = self.frames@.len() as int;
            lemma_fundamental_div_mod_converse_div(self.elapsed as int, d, 0, self.elapsed as int);
            lemma_fundamental_div_mod_converse_mod(self.elapsed as int, d, 0, self.elapsed as int);
            lemma_fundamental_div_mod_converse_mod(self.index as int, n, 0, self.index as int);
        }
    }

    /// Proves what holds of every clip that executable code can hold.
    pub proof fn lemma_valid(self)
        requires
            self.valid(),
        ensures
            self.cells().len() == 0 ==> self.index_spec() == 0,
            self.cells().len() > 0 ==> self.index_spec() < self.cells().len(),
            self.frame_time_spec() == 0 ==> self.elapsed_spec() == 0,
            self.frame_time_spec() > 0 ==> self.elapsed_spec() < self.frame_time_spec(),
    {
    }

    /// Makes a clip that shows its first frame and has spent no time on it.
    pub fn new(texture: u32, columns: u32, rows: u32, frames: Vec<Cell>, frame_time: u64) -> (clip:
        AnimationClip)
        ensures
            clip.valid(),
            clip.texture_id() == texture,
            clip.grid() == (columns, rows),
            clip.cells() == frames@,
            clip.frame_time_spec() == frame_time,
            clip.index_spec() == 0,
            clip.elapsed_spec() == 0,
    {
        AnimationClip { texture, columns, rows, frames, frame_time, index: 0, elapsed: 0 }
    }

    /// Returns the number of frames.
    pub fn len(&self) -> (n: usize)
        ensures
            n == self.cells().len(),
    {
        self.frames.len()
    }

    /// Returns the microseconds each frame stays on show.
    pub fn frame_time(&self) -> (t: u64)
        ensures
            t == self.frame_time_spec(),
    {
        self.frame_time
    }

    /// Returns the index of the frame on show.
    pub fn current_index(&self) -> (i: usize)
        ensures
            i == self.index_spec(),
    {
        self.index
    }

    /// Returns the microseconds already spent on the frame on show.
    pub fn elapsed(&self) -> (t: u64)
        ensures
            t == self.elapsed_spec(),
    {
        self.elapsed
    }

    /// Looks up the frame at `index`; a clip has none at or past its length.
    pub fn frame_at(&self, index: usize) -> (frame: Option<SpriteFrame>)
        ensures
            frame == self.frame_at_spec(index),
    {
        if index < self.frames.len() {
            Some(
                SpriteFrame {
                    texture: self.texture,
                    cell: self.frames[index],
                    columns: self.columns,
                    rows: self.rows,
                },
            )
        } else {
            None
        }
    }

    /// Looks up the frame on show; a clip without frames shows none.
    pub fn current_frame(&self) -> (frame: Option<SpriteFrame>)
        ensures
            frame == self.frame_at_spec(self.index_spec()),
    {
        self.frame_at(self.index)
    }

    /// Goes back to the first frame with no time spent on it.
    pub fn restart(&mut self)
        ensures
            final(self).valid(),
            final(self).index_spec() == 0,
            final(self).elapsed_spec() == 0,
            final(self).cells() == old(self).cells(),
            final(self).frame_time_spec() == old(self).frame_time_spec(),
            final(self).texture_id() == old(self).texture_id(),
            final(self).grid() == old(self).grid(),
    {
        proof {
            use_type_invariant(&*self);
        }
        self.index = 0;
        self.elapsed = 0;
    }

    /// Moves the clock on by `dt` microseconds.
    ///
    /// The frames themselves never change. A clip without frames, or whose
    /// frames take no time, is left as it was.
    pub fn advance(&mut self, dt: u64)
        ensures
            *final(self) == old(self).after(dt),
            final(self).valid(),
            final(self).index_spec() == frame_after(
                old(self).cells().len(),
                old(self).frame_time_spec() as nat,
                old(self).index_spec() as nat,
                old(self).elapsed_spec() as nat,
                dt as nat,
            ),
            final(self).elapsed_spec() == elapsed_after(
                old(self).cells().len(),
                old(self).frame_time_spec() as nat,
                old(self).elapsed_spec() as nat,
                dt as nat,
            ),
            final(self).cells() == old(self).cells(),
            final(self).frame_time_spec() == old(self).frame_time_spec(),
            final(self).texture_id() == old(self).texture_id(),
            final(self).grid() == old(self).grid(),
    {
        proof {
            use_type_invariant(&*self);
        }
        let len: usize = self.frames.len();
        if len == 0 || self.frame_time == 0 {
            proof {
                self.lemma_after(dt);
            }
            return ;
        }
        let total: u128 = self.elapsed as u128 + dt as u128;
        let steps: u128 = total / (self.frame_time as u128);
        let rest: u128 = total % (self.frame_time as u128);
        let turn: u128 = steps % (len as u128);
        let next: u128 = (self.index as u128 + turn) % (len as u128);
        proof {
            lemma_mod_bound(total as int, self.frame_time as int);
            lemma_mod_bound(self.index as int + turn as int, len as int);
            lemma_add_mod_noop_right(self.index as int, steps as int, len as int);
            self.lemma_after(dt);
        }
        self.elapsed = rest as u64;
        self.index = next as usize;
    }
}

impl Clone for AnimationClip {
    /// Copies the clip together with the state of its clock.
    fn clone(&self) -> (copy: AnimationClip)
        ensures
            copy.valid(),
            copy.texture_id() == self.texture_id(),
            copy.grid() == self.grid(),
            copy.cells() == self.cells(),
            copy.frame_time_spec() == self.frame_time_spec(),
            copy.index_spec() == self.index_spec(),
            copy.elapsed_spec() == self.elapsed_spec(),
    {
        proof {
            use_type_invariant(self);
        }
        let frames: Vec<Cell> = self.frames.clone();
        assert(frames@ =~= self.frames@);
        AnimationClip {
            texture: self.texture,
            columns: self.columns,
            rows: self.rows,
            frames,
            frame_time: self.frame_time,
            index: self.index,
            elapsed: self.elapsed,
        }
    }
}

/// A list of clips after the clip at `which` has played for `dt`
/// microseconds. A list without a clip there is left as it was.
pub open spec fn played(clips: Seq<AnimationClip>, which: int, dt: u64) -> Seq<AnimationClip> {
    if 0 <= which < clips.len() {
        clips.update(which, clips[which].after(dt))
    } else {
        clips
    }
}

/// The frame that the clip at `which` has on show, if there is such a clip
/// and it has frames.
pub open spec fn shown(clips: Seq<AnimationClip>, which: int) -> Option<SpriteFrame> {
    if 0 <= which < clips.len() {
        clips[which].frame_at_spec(clips[which].index_spec())
    } else {
        None
    }
}

/// Plays the clip at `which` for `dt` microseconds and returns the frame it
/// then shows.
pub fn play(clips: &mut Vec<AnimationClip>, which: usize, dt: u64) -> (frame: Option<SpriteFrame>)
    ensures
        final(clips)@ == played(old(clips)@, which as int, dt),
        frame == shown(final(clips)@, which as int),
{
    if which < clips.len() {
        clips[which].advance(dt);
        assert(clips@ =~= played(old(clips)@, which as int, dt));
        clips[which].current_frame()
    } else {
        None
    }
}

/// Time adds up: advancing by `first` and then by `second` leaves the clock
/// where advancing once by their sum leaves it.
pub proof fn lemma_advance_adds_up(
    len: nat,
    frame_time: nat,
    index: nat,
    elapsed: nat,
    first: nat,
    second: nat,
)
    requires
        frame_time > 0 ==> elapsed < frame_time,
    ensures
        frame_after(
            len,
            frame_time,
            frame_after(len, frame_time, index, elapsed, first),
            elapsed_after(len, frame_time, elapsed, first),
            second,
        ) == frame_after(len, frame_time, index, elapsed, first + second),
        elapsed_after(len, frame_time, elapsed_after(len, frame_time, elapsed, first), second)
            == elapsed_after(len, frame_time, elapsed, first + second),
{
    if len > 0 && frame_time > 0 {
        let d = frame_time as int;
        let n = len as int;
        let t1 = (elapsed + first) as int;
        let q1 = t1 / d;
        let r1 = t1 % d;
        let t2 = r1 + second;
        let q2 = t2 / d;
        let r2 = t2 % d;
        lemma_fundamental_div_mod(t1, d);
        lemma_fundamental_div_mod(t2, d);
        lemma_mod_bound(t1, d);
        lemma_mod_bound(t2, d);
        let whole = (elapsed + first + second) as int;
        assert(whole == (q1 + q2) * d + r2) by (nonlinear_arith)
            requires
                whole == t1 + second,
                t1 == d * q1 + r1,
                r1 + second == d * q2 + r2,
        ;
        lemma_fundamental_div_mod_converse_div(whole, d, q1 + q2, r2);
        lemma_fundamental_div_mod_converse_mod(whole, d, q1 + q2, r2);
        // (( index + q1 ) % n + q2) % n == (index + q1 + q2) % n
        lemma_add_mod_noop_right(q2, index + q1, n);
        assert(((index + q1) % n + q2) == q2 + (index + q1) % n);
        assert(q2 + (index + q1) == index + (q1 + q2));
    }
}

/// A clip loops: after as much time as all its frames take together, the
/// clock is back where it was. A clip on its first frame is on its first frame
/// again.
pub proof fn lemma_full_cycle_returns(len: nat, frame_time: nat, index: nat, elapsed: nat)
    requires
        len > 0 ==> index < len,
        frame_time > 0 ==> elapsed < frame_time,
    ensures
        frame_after(len, frame_time, index, elapsed, len * frame_time) == index,
        elapsed_after(len, frame_time, elapsed, len * frame_time) == elapsed,
{
    if len > 0 && frame_time > 0 {
        let d = frame_time as int;
        let n = len as int;
        let whole = (elapsed + len * frame_time) as int;
        assert(whole == n * d + elapsed);
        lemma_fundamental_div_mod_converse_div(whole, d, n, elapsed as int);
        lemma_fundamental_div_mod_converse_mod(whole, d, n, elapsed as int);
        assert(index + n == 1 * n + index) by (nonlinear_arith);
        lemma_fundamental_div_mod_converse_mod(index + n, n, 1, index as int);
    }
}

/// Each frame's time moves the clip on by one frame: after `steps` frame
/// times the clip is `steps` frames further, counted round the loop.
pub proof fn lemma_whole_frames_step(
    len: nat,
    frame_time: nat,
    index: nat,
    elapsed: nat,
    steps: nat,
)
    requires
        len > 0,
        frame_time > 0,
        elapsed < frame_time,
    ensures
        frame_after(len, frame_time, index, elapsed, steps * frame_time) == (index + steps) % len,
        elapsed_after(len, frame_time, elapsed, steps * frame_time) == elapsed,
{
    let d = frame_time as int;
    let whole = (elapsed + steps * frame_time) as int;
    assert(whole == steps * d + elapsed);
    lemma_fundamental_div_mod_converse_div(whole, d, steps as int, elapsed as int);
    lemma_fundamental_div_mod_converse_mod(whole, d, steps as int, elapsed as int);
}

} // verus!
