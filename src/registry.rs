//! A program's table from discriminators to account variants.

use vstd::prelude::*;

use crate::crafting::{discriminator_of, CraftingKind};
use crate::discriminator::same_discriminator;

verus! {

/// One registered variant: the discriminator that selects it, and its kind.
#[derive(Clone, Copy, Debug)]
pub struct Variant {
    pub discriminator: [u8; 8],
    pub kind: CraftingKind,
}

/// The kind of the first entry whose discriminator is `d`. Where two entries
/// share a discriminator, the one registered first wins.
pub open spec fn first_match(entries: Seq<Variant>, d: Seq<u8>) -> Option<CraftingKind>
    decreases entries.len(),
{
    if entries.len() == 0 {
        None
    } else if entries[0].discriminator@ == d {
        Some(entries[0].kind)
    } else {
        first_match(entries.drop_first(), d)
    }
}

/// Registering a variant later never takes a discriminator away from the
/// variant registered under it first.
pub proof fn lemma_first_registered_wins(entries: Seq<Variant>, later: Variant, d: Seq<u8>)
    requires
        first_match(entries, d) is Some,
    ensures
        first_match(entries.push(later), d) == first_match(entries, d),
    decreases entries.len(),
{
    if entries[0].discriminator@ != d {
        assert(entries.push(later).drop_first() =~= entries.drop_first().push(later));
        lemma_first_registered_wins(entries.drop_first(), later, d);
    }
}

/// The Crafting program's account variants, in the order they are registered.
pub open spec fn crafting_kinds() -> Seq<CraftingKind> {
    seq![
        CraftingKind::CraftableItem,
        CraftingKind::CraftingFacility,
        CraftingKind::CraftingProcess,
        CraftingKind::Domain,
        CraftingKind::Recipe,
        CraftingKind::RecipeCategory,
    ]
}

/// An ordered table of variants. It is filled once and then only read.
pub struct Registry {
    entries: Vec<Variant>,
}

impl View for Registry {
    type V = Seq<Variant>;

    closed spec fn view(&self) -> Seq<Variant> {
        self.entries@
    }
}

impl Registry {
    /// A registry with no entries.
    pub fn new() -> (r: Registry)
        ensures
            r@ == Seq::<Variant>::empty(),
    {
        Registry { entries: Vec::new() }
    }

    /// Adds a variant after those already registered.
    pub fn register(&mut self, discriminator: [u8; 8], kind: CraftingKind)
        ensures
            final(self)@ == old(self)@.push(Variant { discriminator, kind }),
    {
        self.entries.push(Variant { discriminator, kind });
    }

    /// The registry of the Crafting program's accounts: each variant under
    /// its own discriminator.
    pub fn crafting() -> (r: Registry)
        ensures
            r@.len() == crafting_kinds().len(),
            forall|i: int|
                0 <= i < r@.len() ==> (#[trigger] r@[i]).kind == crafting_kinds()[i]
                    && r@[i].discriminator@ == discriminator_of(crafting_kinds()[i]),
    {
        let mut r = Registry::new();
        let kinds: [CraftingKind; 6] = [
            CraftingKind::CraftableItem,
            CraftingKind::CraftingFacility,
            CraftingKind::CraftingProcess,
            CraftingKind::Domain,
            CraftingKind::Recipe,
            CraftingKind::RecipeCategory,
        ];
        assert(kinds@ =~= crafting_kinds());
        let mut i: usize = 0;
        while i < 6
            invariant
                i <= 6,
                kinds@ == crafting_kinds(),
                r@.len() == i,
                forall|j: int|
                    0 <= j < i ==> (#[trigger] r@[j]).kind == crafting_kinds()[j]
                        && r@[j].discriminator@ == discriminator_of(crafting_kinds()[j]),
            decreases 6 - i,
        {
            let k = kinds[i];
            r.register(k.discriminator(), k);
            i = i + 1;
        }
        r
    }

    /// The kind registered first under discriminator `d`, if any.
    pub fn lookup(&self, d: &[u8; 8]) -> (r: Option<CraftingKind>)
        ensures
            r == first_match(self@, d@),
    {
        let mut i: usize = 0;
        assert(self@.subrange(0, self@.len() as int) =~= self@);
        while i < self.entries.len()
            invariant
                i <= self.entries@.len(),
                first_match(self@, d@) == first_match(self@.subrange(i as int, self@.len() as int), d@),
            decreases self.entries@.len() - i,
        {
            let e = &self.entries[i];
            assert(self@.subrange(i as int, self@.len() as int).drop_first() =~= self@.subrange(
                i + 1,
                self@.len() as int,
            ));
            if same_discriminator(&e.discriminator, d) {
                return Some(e.kind);
            }
            i = i + 1;
        }
        None
    }
}

} // verus!
