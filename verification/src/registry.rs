//! The soundfont registry: every soundfont loaded in a session,
//! retained and shared.
//!
//! An entry is immutable shared instrument data keyed by its load
//! origin (a path, or a name for a dropped payload); many engines may
//! reference the same entry, so entries are held behind shared
//! ownership. Entries are added on demand and kept for the session —
//! there is no eviction — which lets a control surface offer every
//! previously loaded font for re-selection.

use vstd::prelude::*;
use std::sync::Arc;

verus! {

/// The session's loaded soundfonts, in load order, each under the
/// origin it was loaded from.
pub struct SoundFontRegistry {
    origins: Vec<String>,
    fonts: Vec<Arc<rustysynth::SoundFont>>,
}

impl SoundFontRegistry {
    /// The entries' origins, in load order.
    pub closed spec fn origins_spec(&self) -> Seq<Seq<char>> {
        self.origins@.map_values(|s: String| s@)
    }

    /// The entries' fonts, in load order.
    pub closed spec fn fonts_spec(&self) -> Seq<Arc<rustysynth::SoundFont>> {
        self.fonts@
    }

    /// Each origin names exactly one font.
    pub open spec fn wf(&self) -> bool {
        self.origins_spec().len() == self.fonts_spec().len()
    }

    /// An empty registry, as a session starts with.
    pub fn new() -> (r: SoundFontRegistry)
        ensures
            r.wf(),
            r.origins_spec().len() == 0,
    {
        SoundFontRegistry { origins: Vec::new(), fonts: Vec::new() }
    }

    /// How many fonts the session has loaded.
    pub fn len(&self) -> (r: usize)
        requires
            self.wf(),
        ensures
            r == self.origins_spec().len(),
    {
        self.fonts.len()
    }

    /// Retains one more loaded font under its origin. Entries are never
    /// dropped or reordered; the new entry comes last.
    pub fn add(&mut self, origin: String, font: Arc<rustysynth::SoundFont>)
        requires
            old(self).wf(),
        ensures
            final(self).wf(),
            final(self).origins_spec() == old(self).origins_spec().push(origin@),
            final(self).fonts_spec() == old(self).fonts_spec().push(font),
    {
        self.origins.push(origin);
        self.fonts.push(font);
        proof {
            assert(self.origins@.map_values(|s: String| s@)
                =~= old(self).origins@.map_values(|s: String| s@).push(self.origins@.last()@));
        }
    }

    /// The position of the first entry loaded from the given origin,
    /// if any was.
    pub fn find(&self, origin: &String) -> (r: Option<usize>)
        requires
            self.wf(),
        ensures
            match r {
                Some(i) => i < self.origins_spec().len()
                    && self.origins_spec()[i as int] == origin@
                    && forall|j: int| 0 <= j < i ==> self.origins_spec()[j] != origin@,
                None => forall|j: int| 0 <= j < self.origins_spec().len()
                    ==> self.origins_spec()[j] != origin@,
            },
    {
        let n = self.origins.len();
        let mut i: usize = 0;
        while i < n
            invariant
                i <= n,
                n == self.origins@.len(),
                forall|j: int| 0 <= j < i
                    ==> #[trigger] self.origins_spec()[j] != origin@,
            decreases n - i,
        {
            if self.origins[i].eq(origin) {
                return Some(i);
            }
            i = i + 1;
        }
        None
    }

    /// The font of the entry at a given position.
    pub fn font_at(&self, i: usize) -> (r: &Arc<rustysynth::SoundFont>)
        requires
            self.wf(),
            i < self.origins_spec().len(),
        ensures
            *r == self.fonts_spec()[i as int],
    {
        &self.fonts[i]
    }

    /// The origin of the entry at a given position.
    pub fn origin_at(&self, i: usize) -> (r: &String)
        requires
            self.wf(),
            i < self.origins_spec().len(),
        ensures
            r@ == self.origins_spec()[i as int],
    {
        &self.origins[i]
    }
}

} // verus!
