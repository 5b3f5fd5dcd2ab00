//! The idle animation shown while no volume is inserted: a prompt whose
//! trailing dots cycle, and an image frame.
use vstd::prelude::*;

verus! {

/// Number of text frames of the prompt.
pub const TEXT_FRAMES: usize = 4;

/// Number of image frames.
pub const IMAGE_FRAMES: usize = 2;

pub struct AnimationView {
    pub image_index: nat,
    pub text_index: nat,
    pub frames: Seq<Seq<u8>>,
}

/// `k` copies of ` .`.
pub open spec fn dots(k: nat) -> Seq<char>
    decreases k,
{
    if k == 0 {
        Seq::empty()
    } else {
        dots((k - 1) as nat) + " ."@
    }
}

/// The prompt at text frame `k`.
pub open spec fn prompt(k: nat) -> Seq<char> {
    "Please Insert GAMESTICK"@ + dots(k)
}

/// The animation after one step: the prompt moves to its next frame, wrapping
/// after the last, and the image returns to its first frame.
pub open spec fn stepped(a: AnimationView) -> AnimationView {
    AnimationView {
        text_index: (a.text_index + 1) % (TEXT_FRAMES as nat),
        image_index: 0,
        ..a
    }
}

/// The idle animation: which prompt frame and which image frame are shown.
pub struct Animation {
    image_index: usize,
    text_index: usize,
    frames: Vec<Vec<u8>>,
}

impl View for Animation {
    type V = AnimationView;

    closed spec fn view(&self) -> AnimationView {
        AnimationView {
            image_index: self.image_index as nat,
            text_index: self.text_index as nat,
            frames: self.frames@.map_values(|f: Vec<u8>| f@),
        }
    }
}

impl Animation {
    #[verifier::type_invariant]
    spec fn frames_in_range(&self) -> bool {
        &&& self.frames@.len() == IMAGE_FRAMES
        &&& self.text_index < TEXT_FRAMES
        &&& self.image_index < IMAGE_FRAMES
    }

    /// An animation over two image frames (encoded images), at its first frame.
    pub fn new(first: Vec<u8>, second: Vec<u8>) -> (r: Animation)
        ensures
            r@.text_index == 0,
            r@.image_index == 0,
            r@.frames == seq![first@, second@],
    {
        let frames = vec![first, second];
        let r = Animation { image_index: 0, text_index: 0, frames };
        assert(r@.frames =~= seq![first@, second@]);
        r
    }

    /// The prompt of the current text frame.
    pub fn get_text(&self) -> (r: &'static str)
        ensures
            r@ == prompt(self@.text_index),
    {
        proof {
            use_type_invariant(self);
            reveal_strlit("Please Insert GAMESTICK");
            reveal_strlit("Please Insert GAMESTICK .");
            reveal_strlit("Please Insert GAMESTICK . .");
            reveal_strlit("Please Insert GAMESTICK . . .");
            reveal_strlit(" .");
            assert(dots(0) =~= Seq::<char>::empty());
            assert(dots(1) == dots(0) + " ."@);
            assert(dots(2) == dots(1) + " ."@);
            assert(dots(3) == dots(2) + " ."@);
        }
        if self.text_index == 0 {
            let r = "Please Insert GAMESTICK";
            assert(r@ =~= prompt(0));
            r
        } else if self.text_index == 1 {
            let r = "Please Insert GAMESTICK .";
            assert(r@ =~= prompt(1));
            r
        } else if self.text_index == 2 {
            let r = "Please Insert GAMESTICK . .";
            assert(r@ =~= prompt(2));
            r
        } else {
            let r = "Please Insert GAMESTICK . . .";
            assert(r@ =~= prompt(3));
            r
        }
    }

    /// Moves to the next frame.
    pub fn next(&mut self)
        ensures
            final(self)@ == stepped(old(self)@),
    {
        proof {
            use_type_invariant(&*self);
        }
        let t = if self.text_index + 1 >= TEXT_FRAMES {
            0
        } else {
            self.text_index + 1
        };
        self.text_index = t;
        self.image_index = 0;
    }

    /// The current text frame.
    pub fn text_index(&self) -> (r: usize)
        ensures
            r == self@.text_index,
            r < TEXT_FRAMES,
    {
        proof {
            use_type_invariant(self);
        }
        self.text_index
    }

    /// The encoded image of the current frame.
    pub fn get_current_frame(&self) -> (r: &Vec<u8>)
        ensures
            self@.image_index < self@.frames.len(),
            r@ == self@.frames[self@.image_index as int],
    {
        proof {
            use_type_invariant(self);
        }
        &self.frames[self.image_index]
    }
}

} // verus!
