use vstd::prelude::*;
use crate::element::UiElement;
use crate::state::{published_update, silent_update, AppState};

verus! {

/// The global identifier of `local` inside the scope with prefix `prefix`:
/// the prefix and the local identifier joined by `::`, or `local` itself at the root.
pub open spec fn qualify(prefix: Seq<char>, local: Seq<char>) -> Seq<char> {
    if prefix.len() == 0 {
        local
    } else {
        prefix + seq![':', ':'] + local
    }
}

/// A namespace for local identifiers over one shared state: every operation
/// rewrites the local identifier into its global form, then delegates.
#[derive(Clone, Debug)]
pub struct Scope {
    prefix: String,
}

impl Scope {
    /// The path of segments this scope stands for, joined by `::`.
    pub closed spec fn prefix(&self) -> Seq<char> {
        self.prefix@
    }

    /// The root scope, under which identifiers are used as they are.
    pub fn root() -> (r: Scope)
        ensures
            r.prefix() == Seq::<char>::empty(),
    {
        Scope { prefix: String::new() }
    }

    /// The global form of `local` in this scope.
    pub fn global_id(&self, local: &str) -> (r: String)
        ensures
            r@ == qualify(self.prefix(), local@),
    {
        if self.prefix.unicode_len() == 0 {
            local.to_owned()
        } else {
            let mut r = self.prefix.clone();
            r.append("::");
            r.append(local);
            proof {
                reveal_strlit("::");
                assert(r@ =~= qualify(self.prefix(), local@));
            }
            r
        }
    }

    /// A nested scope: `segment` composed onto this scope's path.
    pub fn scope(&self, segment: &str) -> (r: Scope)
        ensures
            r.prefix() == qualify(self.prefix(), segment@),
    {
        Scope { prefix: self.global_id(segment) }
    }

    /// Inserts `element` under the global form of its identifier, which it then carries.
    pub fn add_element(&self, state: &mut AppState, element: UiElement)
        requires
            old(state).wf(),
        ensures
            final(state).wf(),
            final(state).published() == old(state).published(),
            final(state)@ == old(state)@.insert(
                qualify(self.prefix(), element.spec_id()),
                final(state)@[qualify(self.prefix(), element.spec_id())],
            ),
            final(state)@[qualify(self.prefix(), element.spec_id())].renames(
                element,
                qualify(self.prefix(), element.spec_id()),
            ),
    {
        let global = self.global_id(element.id().as_str());
        state.add_element(element.with_id(global));
    }

    /// Stores `element` under the global form of `local`, carrying that
    /// identifier, and publishes one update for it; returns how many
    /// subscribers it reached, or `None` when there was none.
    pub fn update_element(&self, state: &mut AppState, local: &str, element: UiElement) -> (r: Option<
        usize,
    >)
        requires
            old(state).wf(),
        ensures
            r matches Some(n) ==> n > 0,
            r is Some ==> published_update(
                *old(state),
                *final(state),
                qualify(self.prefix(), local@),
                final(state)@[qualify(self.prefix(), local@)],
            ),
            r is None ==> silent_update(
                *old(state),
                *final(state),
                qualify(self.prefix(), local@),
                final(state)@[qualify(self.prefix(), local@)],
            ),
            final(state)@[qualify(self.prefix(), local@)].renames(
                element,
                qualify(self.prefix(), local@),
            ),
    {
        let global = self.global_id(local);
        let renamed = element.with_id(global.clone());
        state.update_element(global.as_str(), renamed)
    }

    /// The element held under the global form of `local`.
    pub fn lookup<'a>(&self, state: &'a AppState, local: &str) -> (r: Option<&'a UiElement>)
        requires
            state.wf(),
        ensures
            match r {
                Some(e) => state@.contains_key(qualify(self.prefix(), local@)) && *e == state@[qualify(
                    self.prefix(),
                    local@,
                )],
                None => !state@.contains_key(qualify(self.prefix(), local@)),
            },
    {
        let global = self.global_id(local);
        state.lookup(global.as_str())
    }
}

/// Two different scopes give one local identifier two different global ones.
pub proof fn lemma_scopes_disjoint(p1: Seq<char>, p2: Seq<char>, local: Seq<char>)
    requires
        p1 != p2,
    ensures
        qualify(p1, local) != qualify(p2, local),
{
    let sep = seq![':', ':'];
    if p1.len() > 0 && p2.len() > 0 {
        let q1 = p1 + sep + local;
        let q2 = p2 + sep + local;
        if q1 == q2 {
            assert(p1.len() == p2.len());
            assert(p1 =~= q1.subrange(0, p1.len() as int));
            assert(p2 =~= q2.subrange(0, p2.len() as int));
        }
    } else if p1.len() == 0 && p2.len() > 0 {
        assert((p2 + sep + local).len() > local.len());
    } else if p2.len() == 0 && p1.len() > 0 {
        assert((p1 + sep + local).len() > local.len());
    } else {
        assert(p1 =~= p2);
    }
}

/// Publishing an update in one scope neither broadcasts an update for the same
/// local identifier in another scope nor touches the element stored there.
pub proof fn lemma_scoped_update_isolated(
    before: AppState,
    after: AppState,
    p1: Seq<char>,
    p2: Seq<char>,
    local: Seq<char>,
    element: UiElement,
)
    requires
        p1 != p2,
        published_update(before, after, qualify(p1, local), element),
    ensures
        forall|other: UiElement| !after.published().last().is_update(qualify(p2, local), other),
        after@.contains_key(qualify(p2, local)) == before@.contains_key(qualify(p2, local)),
        before@.contains_key(qualify(p2, local)) ==> after@[qualify(p2, local)] == before@[qualify(
            p2,
            local,
        )],
{
    lemma_scopes_disjoint(p1, p2, local);
}

/// Adding elements with one local identifier in two different scopes leaves
/// two distinct entries, each holding its own element.
pub proof fn lemma_scoped_entries_coexist(
    s0: AppState,
    s1: AppState,
    s2: AppState,
    p1: Seq<char>,
    p2: Seq<char>,
    e1: UiElement,
    e2: UiElement,
)
    requires
        p1 != p2,
        e1.spec_id() == e2.spec_id(),
        s1@ == s0@.insert(qualify(p1, e1.spec_id()), s1@[qualify(p1, e1.spec_id())]),
        s1@[qualify(p1, e1.spec_id())].renames(e1, qualify(p1, e1.spec_id())),
        s2@ == s1@.insert(qualify(p2, e2.spec_id()), s2@[qualify(p2, e2.spec_id())]),
        s2@[qualify(p2, e2.spec_id())].renames(e2, qualify(p2, e2.spec_id())),
    ensures
        qualify(p1, e1.spec_id()) != qualify(p2, e2.spec_id()),
        s2@.contains_key(qualify(p1, e1.spec_id())),
        s2@.contains_key(qualify(p2, e2.spec_id())),
        s2@[qualify(p1, e1.spec_id())].renames(e1, qualify(p1, e1.spec_id())),
        s2@[qualify(p2, e2.spec_id())].renames(e2, qualify(p2, e2.spec_id())),
{
    lemma_scopes_disjoint(p1, p2, e1.spec_id());
}

} // verus!
