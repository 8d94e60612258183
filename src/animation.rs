use vstd::prelude::*;

verus! {

broadcast use vstd::string::group_string_axioms;

/// The frame shown for frame number `n`: the frames wrap around.
pub open spec fn frame_at(frames: Seq<Seq<Seq<char>>>, n: nat) -> Seq<Seq<char>>
    recommends
        frames.len() > 0,
{
    frames[(n % frames.len()) as int]
}

/// An animation: a fixed, non-empty sequence of frames, each a sequence of
/// lines, and a suggested delay between frames.
pub trait Animation {
    /// The frames, in order.
    spec fn frames(&self) -> Seq<Seq<Seq<char>>>;

    /// The suggested delay between two frames, in milliseconds.
    spec fn delay_ms(&self) -> u64;

    /// The frame for `frame_number`, which wraps around the frame count.
    fn get_frame(&self, frame_number: usize) -> (r: Vec<String>)
        ensures
            self.frames().len() > 0,
            r.deep_view() == frame_at(self.frames(), frame_number as nat),
    ;

    /// How many frames the animation has; never zero.
    fn frame_count(&self) -> (r: usize)
        ensures
            r == self.frames().len(),
            r > 0,
    ;

    /// The suggested delay between two frames, in milliseconds.
    fn frame_delay_ms(&self) -> (r: u64)
        ensures
            r == self.delay_ms(),
    ;
}

pub open spec fn sunny_frame_1() -> Seq<Seq<char>> {
    seq![
        "    \\  |  /"@,
        "     .-\"-."@,
        "--- (  O  ) ---"@,
        "     `-.-'"@,
        "    /  |  \\"@,
    ]
}

pub open spec fn sunny_frame_2() -> Seq<Seq<char>> {
    seq![
        "     \\ | /"@,
        "   .-\"   \"-."@,
        "-- (   O   ) --"@,
        "   `-.   .-'"@,
        "     / | \\"@,
    ]
}

pub open spec fn sunny_frame_3() -> Seq<Seq<char>> {
    seq![
        "    /  |  \\"@,
        "     .-\"-."@,
        "--- (  O  ) ---"@,
        "     `-.-'"@,
        "    \\  |  /"@,
    ]
}

pub open spec fn sunny_frame_4() -> Seq<Seq<char>> {
    seq![
        "     / | \\"@,
        "   .-\"   \"-."@,
        "-- (   O   ) --"@,
        "   `-.   .-'"@,
        "     \\ | /"@,
    ]
}

/// The four frames of the sun: the rays turn and the sun widens and narrows.
pub open spec fn sunny_frames() -> Seq<Seq<Seq<char>>> {
    seq![sunny_frame_1(), sunny_frame_2(), sunny_frame_3(), sunny_frame_4()]
}

/// The suggested delay between two frames of the sun, in milliseconds.
pub const SUNNY_FRAME_DELAY_MS: u64 = 500;

/// A sun whose rays turn.
pub struct SunnyAnimation {
    frames: Vec<Vec<String>>,
    frame_delay: u64,
}

impl SunnyAnimation {
    #[verifier::type_invariant]
    closed spec fn inv(self) -> bool {
        self.frames@.len() > 0
    }

    pub fn new() -> (r: Self)
        ensures
            r.frames() == sunny_frames(),
            r.delay_ms() == SUNNY_FRAME_DELAY_MS,
    {
        let frames = vec![
            Self::create_frame_1(),
            Self::create_frame_2(),
            Self::create_frame_3(),
            Self::create_frame_4(),
        ];
        assert(frames.deep_view() =~= sunny_frames());
        Self { frames, frame_delay: SUNNY_FRAME_DELAY_MS }
    }

    fn create_frame_1() -> (r: Vec<String>)
        ensures
            r.deep_view() == sunny_frame_1(),
    {
        let r = vec![
            "    \\  |  /".to_string(),
            "     .-\"-.".to_string(),
            "--- (  O  ) ---".to_string(),
            "     `-.-'".to_string(),
            "    /  |  \\".to_string(),
        ];
        assert(r.deep_view() =~= sunny_frame_1());
        r
    }

    fn create_frame_2() -> (r: Vec<String>)
        ensures
            r.deep_view() == sunny_frame_2(),
    {
        let r = vec![
            "     \\ | /".to_string(),
            "   .-\"   \"-.".to_string(),
            "-- (   O   ) --".to_string(),
            "   `-.   .-'".to_string(),
            "     / | \\".to_string(),
        ];
        assert(r.deep_view() =~= sunny_frame_2());
        r
    }

    fn create_frame_3() -> (r: Vec<String>)
        ensures
            r.deep_view() == sunny_frame_3(),
    {
        let r = vec![
            "    /  |  \\".to_string(),
            "     .-\"-.".to_string(),
            "--- (  O  ) ---".to_string(),
            "     `-.-'".to_string(),
            "    \\  |  /".to_string(),
        ];
        assert(r.deep_view() =~= sunny_frame_3());
        r
    }

    fn create_frame_4() -> (r: Vec<String>)
        ensures
            r.deep_view() == sunny_frame_4(),
    {
        let r = vec![
            "     / | \\".to_string(),
            "   .-\"   \"-.".to_string(),
            "-- (   O   ) --".to_string(),
            "   `-.   .-'".to_string(),
            "     \\ | /".to_string(),
        ];
        assert(r.deep_view() =~= sunny_frame_4());
        r
    }
}

impl Animation for SunnyAnimation {
    closed spec fn frames(&self) -> Seq<Seq<Seq<char>>> {
        self.frames.deep_view()
    }

    closed spec fn delay_ms(&self) -> u64 {
        self.frame_delay
    }

    fn get_frame(&self, frame_number: usize) -> (r: Vec<String>) {
        proof {
            use_type_invariant(self);
        }
        let r = self.frames[frame_number % self.frames.len()].clone();
        assert(r.deep_view() =~= self.frames@[(frame_number % self.frames.len()) as int].deep_view());
        r
    }

    fn frame_count(&self) -> (r: usize) {
        proof {
            use_type_invariant(self);
        }
        self.frames.len()
    }

    fn frame_delay_ms(&self) -> (r: u64) {
        self.frame_delay
    }
}

impl Default for SunnyAnimation {
    fn default() -> (r: Self)
        ensures
            r.frames() == sunny_frames(),
            r.delay_ms() == SUNNY_FRAME_DELAY_MS,
    {
        Self::new()
    }
}

/// The animation's frames are the four frames of the sun, and each has five lines.
pub proof fn lemma_sunny_shape()
    ensures
        sunny_frames().len() == 4,
        forall|i: int| 0 <= i < 4 ==> #[trigger] sunny_frames()[i].len() == 5,
{
}

/// Looking up frame `n` gives the same frame as looking up `n` modulo the
/// frame count.
pub proof fn lemma_frame_at_wraps<A: Animation>(animation: &A, n: nat)
    requires
        animation.frames().len() > 0,
    ensures
        frame_at(animation.frames(), n) == frame_at(animation.frames(), n % animation.frames().len()),
{
    vstd::arithmetic::div_mod::lemma_mod_twice(n as int, animation.frames().len() as int);
}

/// One step of the controller takes index `from` to index `to`: the frame
/// shown next is the one after the frame shown before.
pub open spec fn advances_to(from: nat, to: nat, count: nat) -> bool {
    to % count == (from + 1) % count
}

proof fn lemma_mod_succ(x: int, m: int)
    requires
        m > 0,
    ensures
        (x % m + 1) % m == (x + 1) % m,
{
    vstd::arithmetic::div_mod::lemma_fundamental_div_mod(x, m);
    vstd::arithmetic::div_mod::lemma_mod_multiples_vanish(x / m, x % m + 1, m);
}

proof fn lemma_steps(indices: Seq<nat>, count: nat, k: nat)
    requires
        count > 0,
        k < indices.len(),
        forall|j: int| 0 <= j < k ==> advances_to(#[trigger] indices[j], indices[j + 1], count),
    ensures
        indices[k as int] % count == (indices[0] + k) % count,
    decreases k,
{
    if k > 0 {
        lemma_steps(indices, count, (k - 1) as nat);
        assert(advances_to(indices[k - 1], indices[k as int], count));
        lemma_mod_succ(indices[k - 1] as int, count as int);
        lemma_mod_succ(indices[0] + k - 1, count as int);
    }
}

/// Advancing the controller once per frame, `frame_count` times in a row,
/// brings back the frame it showed at the start.
pub proof fn lemma_full_cycle<A: Animation>(animation: &A, indices: Seq<nat>)
    requires
        animation.frames().len() > 0,
        indices.len() == animation.frames().len() + 1,
        forall|j: int|
            0 <= j < animation.frames().len() ==> advances_to(
                #[trigger] indices[j],
                indices[j + 1],
                animation.frames().len(),
            ),
    ensures
        frame_at(animation.frames(), indices.last()) == frame_at(animation.frames(), indices[0]),
{
    let count = animation.frames().len();
    lemma_steps(indices, count, count);
    vstd::arithmetic::div_mod::lemma_mod_add_multiples_vanish(indices[0] as int, count as int);
}

/// Which frame of an animation is showing. The index only grows; the frame
/// lookup wraps it around the frame count.
pub struct AnimationController {
    current_frame: usize,
}

impl AnimationController {
    /// The stored frame index.
    pub closed spec fn index(&self) -> nat {
        self.current_frame as nat
    }

    pub fn new() -> (r: Self)
        ensures
            r.index() == 0,
    {
        AnimationController { current_frame: 0 }
    }

    /// The stored frame index.
    pub fn current_index(&self) -> (r: usize)
        ensures
            r == self.index(),
    {
        self.current_frame
    }

    /// Moves on to the next frame. The index grows by one; only when it
    /// cannot grow any further is it brought back within the frame count,
    /// onto the same next frame.
    pub fn next_frame<A: Animation>(&mut self, animation: &A)
        ensures
            old(self).index() < usize::MAX ==> final(self).index() == old(self).index() + 1,
            advances_to(old(self).index(), final(self).index(), animation.frames().len()),
    {
        let count = animation.frame_count();
        if self.current_frame < usize::MAX {
            self.current_frame = self.current_frame + 1;
        } else {
            let old_index = self.current_frame;
            self.current_frame = self.current_frame % count + 1;
            proof {
                lemma_mod_succ(old_index as int, count as int);
            }
        }
    }

    /// The lines of the frame that is showing.
    pub fn current_frame<A: Animation>(&self, animation: &A) -> (r: Vec<String>)
        ensures
            r.deep_view() == frame_at(animation.frames(), self.index()),
    {
        animation.get_frame(self.current_frame)
    }
}

impl Default for AnimationController {
    fn default() -> (r: Self)
        ensures
            r.index() == 0,
    {
        Self::new()
    }
}

} // verus!
