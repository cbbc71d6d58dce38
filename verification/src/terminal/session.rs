use vstd::prelude::*;

use super::kitty::{KittyImage, delete_image, kitty_delete_text};

verus! {

/// The image placements a terminal session has shown, each once, in the order they were
/// registered; they are deleted when the session ends.
pub struct ImageRegistry {
    images: Vec<KittyImage>,
}

/// No placement occurs twice.
pub open spec fn no_duplicates(s: Seq<KittyImage>) -> bool {
    forall|i: int, j: int| 0 <= i < j < s.len() ==> s[i] != s[j]
}

/// The delete commands for the placements, the last registered first.
pub open spec fn deletes_in_reverse(s: Seq<KittyImage>) -> Seq<char>
    decreases s.len(),
{
    if s.len() == 0 {
        seq![]
    } else {
        kitty_delete_text(s.last()) + deletes_in_reverse(s.drop_last())
    }
}

/// The placements after registering `image`: unchanged when it is already there,
/// otherwise with it appended.
pub open spec fn registered(s: Seq<KittyImage>, image: KittyImage) -> Seq<KittyImage> {
    if s.contains(image) {
        s
    } else {
        s.push(image)
    }
}

impl View for ImageRegistry {
    type V = Seq<KittyImage>;

    closed spec fn view(&self) -> Seq<KittyImage> {
        self.images@
    }
}

impl ImageRegistry {
    #[verifier::type_invariant]
    spec fn inv(&self) -> bool {
        no_duplicates(self.images@)
    }

    /// An empty registry.
    pub fn new() -> (r: ImageRegistry)
        ensures
            r@ == Seq::<KittyImage>::empty(),
    {
        ImageRegistry { images: Vec::new() }
    }

    /// Registers a placement unless it already is.
    pub fn register_image(&mut self, image: KittyImage)
        ensures
            final(self)@ == registered(old(self)@, image),
            no_duplicates(final(self)@),
    {
        proof { use_type_invariant(&*self); }
        let n = self.images.len();
        let mut i: usize = 0;
        while i < n
            invariant
                n == self.images@.len(),
                i <= n,
                forall|j: int| 0 <= j < i ==> self.images@[j] != image,
                no_duplicates(self.images@),
                self.images@ == old(self)@,
            decreases n - i,
        {
            if self.images[i] == image {
                assert(self.images@.contains(image));
                return;
            }
            i = i + 1;
        }
        assert(!self.images@.contains(image));
        let mut images: Vec<KittyImage> = Vec::new();
        std::mem::swap(&mut images, &mut self.images);
        images.push(image);
        self.images = images;
        proof { use_type_invariant(&*self); }
    }

    /// Appends a delete command for every placement, the last registered first, and
    /// empties the registry.
    pub fn drain_deletes(&mut self, out: &mut String)
        ensures
            final(out)@ == old(out)@ + deletes_in_reverse(old(self)@),
            final(self)@ == Seq::<KittyImage>::empty(),
    {
        let mut images: Vec<KittyImage> = Vec::new();
        std::mem::swap(&mut images, &mut self.images);
        let ghost all = images@;
        let ghost start = out@;
        while images.len() > 0
            invariant
                out@ + deletes_in_reverse(images@) == start + deletes_in_reverse(all),
            decreases images@.len(),
        {
            let ghost before = images@;
            let image = images.pop().unwrap();
            assert(before.drop_last() =~= images@);
            delete_image(out, &image);
            assert(out@ + deletes_in_reverse(images@) =~= start + deletes_in_reverse(all));
        }
        assert(out@ + deletes_in_reverse(images@) =~= out@);
    }
}

/// Registering a placement that is already registered changes nothing, a registered
/// placement is always among those deleted at the end, and no placement is ever held
/// twice, so none is deleted twice.
pub proof fn lemma_register_idempotent(s: Seq<KittyImage>, image: KittyImage)
    requires
        no_duplicates(s),
    ensures
        registered(registered(s, image), image) == registered(s, image),
        registered(s, image).contains(image),
        no_duplicates(registered(s, image)),
{
    if !s.contains(image) {
        let t = s.push(image);
        assert(t[s.len() as int] == image);
        assert forall|i: int, j: int| 0 <= i < j < t.len() implies t[i] != t[j] by {
            if j == s.len() {
                assert(s[i] == t[i]);
            } else {
                assert(s[i] == t[i] && s[j] == t[j]);
            }
        }
    }
}

} // verus!
