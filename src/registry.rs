use vstd::prelude::*;

verus! {

/// The kinds of provider notification a connection listens to: one per data
/// category, and one for a change of the current session itself.
#[derive(Debug, Clone, Copy, PartialEq, Eq, Hash, Structural)]
pub enum Category {
    Track,
    Controls,
    Timeline,
    Identity,
}

/// The subscription tokens held for one connection: at most one per category.
#[derive(Debug, Clone, Copy, PartialEq, Eq, Structural)]
pub struct ListenerRegistry {
    pub track: Option<i64>,
    pub controls: Option<i64>,
    pub timeline: Option<i64>,
    pub identity: Option<i64>,
}

/// A held token together with the category it was registered for.
pub open spec fn entry(c: Category, t: Option<i64>) -> Seq<(Category, i64)> {
    match t {
        Some(tok) => seq![(c, tok)],
        None => Seq::empty(),
    }
}

impl ListenerRegistry {
    /// The token held for category `c`.
    pub open spec fn token(&self, c: Category) -> Option<i64> {
        match c {
            Category::Track => self.track,
            Category::Controls => self.controls,
            Category::Timeline => self.timeline,
            Category::Identity => self.identity,
        }
    }

    /// The registry with category `c` set to `t`, the others kept.
    pub open spec fn with(self, c: Category, t: Option<i64>) -> ListenerRegistry {
        match c {
            Category::Track => ListenerRegistry { track: t, ..self },
            Category::Controls => ListenerRegistry { controls: t, ..self },
            Category::Timeline => ListenerRegistry { timeline: t, ..self },
            Category::Identity => ListenerRegistry { identity: t, ..self },
        }
    }

    /// Every held token, in the fixed category order.
    pub open spec fn held(&self) -> Seq<(Category, i64)> {
        entry(Category::Track, self.track) + entry(Category::Controls, self.controls) + entry(
            Category::Timeline,
            self.timeline,
        ) + entry(Category::Identity, self.identity)
    }

    pub open spec fn is_empty(&self) -> bool {
        self.track is None && self.controls is None && self.timeline is None
            && self.identity is None
    }

    pub open spec fn empty() -> ListenerRegistry {
        ListenerRegistry { track: None, controls: None, timeline: None, identity: None }
    }

    /// A registry that holds no token.
    pub fn new() -> (r: ListenerRegistry)
        ensures
            r == ListenerRegistry::empty(),
            r.is_empty(),
    {
        ListenerRegistry { track: None, controls: None, timeline: None, identity: None }
    }

    /// The token held for `c`, if any.
    pub fn get(&self, c: Category) -> (r: Option<i64>)
        ensures
            r == self.token(c),
    {
        match c {
            Category::Track => self.track,
            Category::Controls => self.controls,
            Category::Timeline => self.timeline,
            Category::Identity => self.identity,
        }
    }

    /// Records `token` for `c` and hands back the token it replaces, which the
    /// caller must release with the provider.
    pub fn register(&mut self, c: Category, token: i64) -> (prior: Option<i64>)
        ensures
            prior == old(self).token(c),
            *final(self) == old(self).with(c, Some(token)),
    {
        let prior = self.get(c);
        match c {
            Category::Track => self.track = Some(token),
            Category::Controls => self.controls = Some(token),
            Category::Timeline => self.timeline = Some(token),
            Category::Identity => self.identity = Some(token),
        }
        prior
    }

    /// Takes the token held for `c` out of the registry; with none held this
    /// changes nothing and returns `None`.
    pub fn release(&mut self, c: Category) -> (r: Option<i64>)
        ensures
            r == old(self).token(c),
            *final(self) == old(self).with(c, None),
    {
        let prior = self.get(c);
        match c {
            Category::Track => self.track = None,
            Category::Controls => self.controls = None,
            Category::Timeline => self.timeline = None,
            Category::Identity => self.identity = None,
        }
        prior
    }

    /// Drains the registry: returns every held token, each once, and leaves
    /// the registry empty.
    pub fn teardown(&mut self) -> (released: Vec<(Category, i64)>)
        ensures
            released@ == old(self).held(),
            final(self).is_empty(),
            *final(self) == ListenerRegistry::empty(),
    {
        let mut out: Vec<(Category, i64)> = Vec::new();
        if let Some(t) = self.release(Category::Track) {
            out.push((Category::Track, t));
        }
        if let Some(t) = self.release(Category::Controls) {
            out.push((Category::Controls, t));
        }
        if let Some(t) = self.release(Category::Timeline) {
            out.push((Category::Timeline, t));
        }
        if let Some(t) = self.release(Category::Identity) {
            out.push((Category::Identity, t));
        }
        assert(out@ =~= old(self).held());
        out
    }
}

/// Releasing a category twice is harmless: the second release hands back no
/// token and leaves the registry as the first one left it.
pub proof fn lemma_release_twice(r: ListenerRegistry, c: Category)
    ensures
        r.with(c, None).token(c) is None,
        r.with(c, None).with(c, None) == r.with(c, None),
{
}

/// Tearing down a registry that holds nothing (one already torn down, or one
/// whose session has gone) releases nothing and leaves it empty.
pub proof fn lemma_teardown_of_empty(r: ListenerRegistry)
    requires
        r.is_empty(),
    ensures
        r.held().len() == 0,
        r == ListenerRegistry::empty(),
{
    assert(r.held() =~= Seq::<(Category, i64)>::empty());
}

} // verus!
