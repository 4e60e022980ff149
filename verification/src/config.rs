//! The configuration record and the edits the editor makes to it.

use vstd::prelude::*;

verus! {

/// The user's wallpaper selection and gallery, as persisted.
///
/// The editor keeps the gallery free of duplicates ([`ConfigView::distinct`]):
/// a fresh configuration is, and every edit keeps it so. A configuration read
/// from a file is taken as it stands. The background need not be a member of
/// the gallery.
#[derive(Clone, Debug)]
pub struct Config {
    /// Path of the image currently selected, if any.
    pub background: Option<String>,
    /// Paths chosen so far, in the order they were added.
    pub gallery: Vec<String>,
}

/// The mathematical value of a [`Config`]: paths as character sequences.
#[verifier::ext_equal]
pub struct ConfigView {
    /// The selected path, if any.
    pub background: Option<Seq<char>>,
    /// The gallery's paths in order.
    pub gallery: Seq<Seq<char>>,
}

/// The character sequences of a list of strings, in order.
pub open spec fn texts(paths: Seq<String>) -> Seq<Seq<char>> {
    paths.map_values(|path: String| path@)
}

/// The character sequence of an optional string.
pub open spec fn opt_text(path: Option<String>) -> Option<Seq<char>> {
    match path {
        Some(p) => Some(p@),
        None => None,
    }
}

/// The test a path passes if it is not `path`.
pub open spec fn other_than(path: Seq<char>) -> spec_fn(Seq<char>) -> bool {
    |other: Seq<char>| other != path
}

impl View for Config {
    type V = ConfigView;

    open spec fn view(&self) -> ConfigView {
        ConfigView { background: opt_text(self.background), gallery: texts(self.gallery@) }
    }
}

/// The value of an optional configuration.
pub open spec fn opt_view(config: Option<Config>) -> Option<ConfigView> {
    match config {
        Some(c) => Some(c@),
        None => None,
    }
}

impl ConfigView {
    /// The configuration of a fresh installation: nothing selected, nothing in
    /// the gallery.
    pub open spec fn empty() -> ConfigView {
        ConfigView { background: None, gallery: Seq::empty() }
    }

    /// No path occurs twice in the gallery.
    pub open spec fn distinct(self) -> bool {
        self.gallery.no_duplicates()
    }

    /// The gallery after `path` was added: unchanged where it already holds
    /// `path`, else with `path` at its end.
    pub open spec fn gallery_with(self, path: Seq<char>) -> Seq<Seq<char>> {
        if self.gallery.contains(path) {
            self.gallery
        } else {
            self.gallery.push(path)
        }
    }

    /// The gallery without any occurrence of `path`, the rest in order.
    pub open spec fn gallery_without(self, path: Seq<char>) -> Seq<Seq<char>> {
        self.gallery.filter(other_than(path))
    }

    /// The configuration after `path` was added to the gallery.
    pub open spec fn added(self, path: Seq<char>) -> ConfigView {
        ConfigView { background: self.background, gallery: self.gallery_with(path) }
    }

    /// The configuration after `path` was selected: it is the background, and
    /// the gallery holds it.
    pub open spec fn selected(self, path: Seq<char>) -> ConfigView {
        ConfigView { background: Some(path), gallery: self.gallery_with(path) }
    }

    /// The configuration after `path` was removed from the gallery. Where
    /// `path` was the background, the first path left in the gallery takes its
    /// place, or nothing if none is left.
    pub open spec fn removed(self, path: Seq<char>) -> ConfigView {
        let rest = self.gallery_without(path);
        ConfigView {
            background: if self.background == Some(path) {
                if rest.len() > 0 {
                    Some(rest[0])
                } else {
                    None
                }
            } else {
                self.background
            },
            gallery: rest,
        }
    }
}

impl Default for Config {
    fn default() -> (config: Config)
        ensures
            config@ == ConfigView::empty(),
            config@.background is None,
            config@.gallery.len() == 0,
            config@.distinct(),
    {
        let config = Config { background: None, gallery: Vec::new() };
        assert(config@.gallery =~= Seq::empty());
        config
    }
}

impl Config {
    /// Whether the gallery holds `path`.
    pub fn has(&self, path: &str) -> (found: bool)
        ensures
            found == self@.gallery.contains(path@),
    {
        let wanted = path.to_owned();
        let mut i: usize = 0;
        while i < self.gallery.len()
            invariant
                i <= self.gallery.len(),
                wanted@ == path@,
                forall|j: int| 0 <= j < i ==> texts(self.gallery@)[j] != path@,
            decreases self.gallery.len() - i,
        {
            if self.gallery[i] == wanted {
                assert(texts(self.gallery@)[i as int] == path@);
                return true;
            }
            i += 1;
        }
        false
    }

    /// Whether `path` is the background currently selected.
    pub fn is_current(&self, path: &str) -> (current: bool)
        ensures
            current == (self@.background == Some(path@)),
    {
        match &self.background {
            Some(background) => *background == path.to_owned(),
            None => false,
        }
    }

    /// Adds `path` to the gallery unless the gallery already holds it. The
    /// paths already there keep their places.
    pub fn add_background(&mut self, path: String)
        ensures
            final(self)@ == old(self)@.added(path@),
            old(self)@.distinct() ==> final(self)@.distinct(),
    {
        proof {
            if self@.distinct() {
                lemma_add_twice(self@, path@);
            }
        }
        if !self.has(path.as_str()) {
            self.gallery.push(path);
            assert(texts(self.gallery@) =~= texts(old(self).gallery@).push(path@));
        }
    }

    /// Makes `path` the background, and adds it to the gallery unless the
    /// gallery already holds it.
    pub fn select_background(&mut self, path: String)
        ensures
            final(self)@ == old(self)@.selected(path@),
            old(self)@.distinct() ==> final(self)@.distinct(),
    {
        proof {
            if self@.distinct() {
                lemma_select_consistent(self@, path@);
            }
        }
        if !self.has(path.as_str()) {
            self.gallery.push(path.clone());
            assert(texts(self.gallery@) =~= texts(old(self).gallery@).push(path@));
        }
        self.background = Some(path);
    }

    /// Removes every occurrence of `path` from the gallery. Where `path` was
    /// the background, the first path left in the gallery becomes the
    /// background, or none if the gallery is left empty.
    pub fn remove_background(&mut self, path: &str)
        ensures
            final(self)@ == old(self)@.removed(path@),
            old(self)@.distinct() ==> final(self)@.distinct(),
    {
        proof {
            lemma_remove_gallery(self@, path@);
        }
        let ghost differs = other_than(path@);
        let removed = path.to_owned();
        let mut rest: Vec<String> = Vec::new();
        let mut i: usize = 0;
        assert(texts(rest@) =~= texts(self.gallery@).take(0).filter(differs)) by {
            reveal(Seq::filter);
        }
        while i < self.gallery.len()
            invariant
                i <= self.gallery.len(),
                removed@ == path@,
                differs == other_than(path@),
                texts(rest@) == texts(self.gallery@).take(i as int).filter(differs),
            decreases self.gallery.len() - i,
        {
            proof {
                let all = texts(self.gallery@);
                assert(all.take(i + 1) =~= all.take(i as int).push(all[i as int]));
                all.take(i as int).lemma_filter_push(all[i as int], differs);
            }
            if self.gallery[i] != removed {
                rest.push(self.gallery[i].clone());
            }
            i += 1;
        }
        assert(texts(self.gallery@).take(i as int) =~= texts(self.gallery@));
        if self.is_current(path) {
            self.background = if rest.len() > 0 {
                Some(rest[0].clone())
            } else {
                None
            };
        }
        self.gallery = rest;
    }
}

/// Where `path` stands in a gallery after it was added: where it stood before,
/// or at the end.
pub open spec fn place_of(gallery: Seq<Seq<char>>, path: Seq<char>) -> int {
    if gallery.contains(path) {
        gallery.index_of(path)
    } else {
        gallery.len() as int
    }
}

/// Adding a path twice is adding it once. In a gallery without duplicates
/// the path then occurs exactly once, at the place it had after the first
/// addition, and every other path keeps its place.
pub proof fn lemma_add_twice(config: ConfigView, path: Seq<char>)
    requires
        config.distinct(),
    ensures
        config.added(path).added(path) == config.added(path),
        config.added(path).distinct(),
        config.gallery.is_prefix_of(config.added(path).gallery),
        0 <= place_of(config.gallery, path) < config.added(path).gallery.len(),
        forall|i: int|
            0 <= i < config.added(path).gallery.len() ==> (config.added(path).gallery[i] == path
                <==> i == place_of(config.gallery, path)),
        place_of(config.added(path).gallery, path) == place_of(config.gallery, path),
{
    let after = config.added(path).gallery;
    assert(after.contains(path)) by {
        assert(after[place_of(config.gallery, path)] == path);
    }
}

/// Selecting a path leaves a gallery without duplicates so, and the
/// background is then a member of the gallery.
pub proof fn lemma_select_consistent(config: ConfigView, path: Seq<char>)
    requires
        config.distinct(),
    ensures
        config.selected(path).distinct(),
        config.selected(path).background == Some(path),
        config.selected(path).gallery.contains(path),
        config.selected(path).gallery == config.added(path).gallery,
{
    lemma_add_twice(config, path);
}

/// What a gallery holds once `path` was filtered out of it.
proof fn lemma_filtered(gallery: Seq<Seq<char>>, path: Seq<char>)
    ensures
        forall|other: Seq<char>| #[trigger]
            gallery.filter(other_than(path)).contains(other) <==> (gallery.contains(other)
                && other != path),
        gallery.no_duplicates() ==> gallery.filter(other_than(path)).no_duplicates(),
        !gallery.contains(path) ==> gallery.filter(other_than(path)) == gallery,
    decreases gallery.len(),
{
    let differs = other_than(path);
    let rest = gallery.filter(differs);
    reveal(Seq::filter);
    if gallery.len() > 0 {
        let front = gallery.drop_last();
        let before = front.filter(differs);
        lemma_filtered(front, path);
        assert forall|other: Seq<char>| #[trigger]
            rest.contains(other) <==> (gallery.contains(other) && other != path) by {
            if rest.contains(other) {
                let i = choose|i: int| 0 <= i < rest.len() && rest[i] == other;
                if i < before.len() {
                    assert(before.contains(other));
                    let j = choose|j: int| 0 <= j < front.len() && front[j] == other;
                    assert(gallery[j] == other);
                }
            }
            if gallery.contains(other) && other != path {
                let j = choose|j: int| 0 <= j < gallery.len() && gallery[j] == other;
                if j < front.len() {
                    assert(front[j] == other);
                    assert(before.contains(other));
                    let i = choose|i: int| 0 <= i < before.len() && before[i] == other;
                    assert(rest[i] == other);
                }
            }
        }
        if gallery.no_duplicates() && before.contains(gallery.last()) {
            let j = choose|j: int| 0 <= j < front.len() && front[j] == gallery.last();
            assert(gallery[j] == gallery[gallery.len() - 1]);
        }
        if !gallery.contains(path) && front.contains(path) {
            let j = choose|j: int| 0 <= j < front.len() && front[j] == path;
            assert(gallery[j] == path);
        }
    }
}

/// What a removal leaves of the gallery: `path` is gone, every other path is
/// still there, no path is new, and a gallery without duplicates stays so.
pub proof fn lemma_remove_gallery(config: ConfigView, path: Seq<char>)
    ensures
        !config.removed(path).gallery.contains(path),
        forall|other: Seq<char>| #[trigger]
            config.removed(path).gallery.contains(other) <==> (config.gallery.contains(other)
                && other != path),
        config.distinct() ==> config.removed(path).distinct(),
        !config.gallery.contains(path) ==> config.removed(path).gallery == config.gallery,
{
    lemma_filtered(config.gallery, path);
}

/// After a removal the background is never the path removed; it is the old
/// background where that was another path, else the head of what is left.
pub proof fn lemma_remove_background(config: ConfigView, path: Seq<char>)
    ensures
        config.removed(path).background != Some(path),
        config.background != Some(path) ==> config.removed(path).background == config.background,
        config.background == Some(path) && config.removed(path).gallery.len() == 0
            ==> config.removed(path).background is None,
        config.background == Some(path) && config.removed(path).gallery.len() > 0
            ==> config.removed(path).background == Some(config.removed(path).gallery[0]),
{
    lemma_remove_gallery(config, path);
}

} // verus!
