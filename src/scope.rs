//! Name hygiene: the table that maps source identifiers to generated ones,
//! and the counter that makes every generated identifier unique.

use vstd::prelude::*;
use crate::text::{decimal, digit_char, push_char, usize_text};

verus! {

/// The generated identifier for `prefix` at counter value `n`: `prefix_n`.
pub open spec fn fresh_name(prefix: Seq<char>, n: nat) -> Seq<char> {
    prefix + seq!['_'] + decimal(n)
}

/// The innermost binding of `k` among `b`, the newest last.
pub open spec fn lookup_in(b: Seq<(Seq<char>, Seq<char>)>, k: Seq<char>) -> Option<Seq<char>>
    decreases b.len(),
{
    if b.len() == 0 {
        None
    } else if b.last().0 == k {
        Some(b.last().1)
    } else {
        lookup_in(b.drop_last(), k)
    }
}

/// The binding `p` holds the name minted from its source name at a counter
/// value below `n`.
pub open spec fn minted_below(p: (Seq<char>, Seq<char>), n: nat) -> bool {
    exists|c: nat| c < n && #[trigger] fresh_name(p.0, c) == p.1
}

/// What a scope holds: its bindings, oldest first, and the next counter value.
pub struct ScopeModel {
    pub bindings: Seq<(Seq<char>, Seq<char>)>,
    pub counter: nat,
}

impl ScopeModel {
    pub open spec fn lookup(self, k: Seq<char>) -> Option<Seq<char>> {
        lookup_in(self.bindings, k)
    }

    /// Every binding maps its source name to the name minted from it at a
    /// counter value below the current one.
    pub open spec fn wf(self) -> bool {
        forall|k: int| 0 <= k < self.bindings.len() ==> #[trigger] minted_below(self.bindings[k], self.counter)
    }

    /// The scope after minting a name from `prefix`, and that name.
    pub open spec fn minted(self, prefix: Seq<char>) -> (ScopeModel, Seq<char>) {
        (ScopeModel { bindings: self.bindings, counter: self.counter + 1 }, fresh_name(prefix, self.counter))
    }

    /// The scope after binding `local` to a fresh name, and that name.
    pub open spec fn registered(self, local: Seq<char>) -> (ScopeModel, Seq<char>) {
        let name = fresh_name(local, self.counter);
        (ScopeModel { bindings: self.bindings.push((local, name)), counter: self.counter + 1 }, name)
    }
}

/// A scope: bindings from source identifiers to generated identifiers, and
/// the counter from which fresh identifiers are minted. A function's scope is
/// a copy of the scope it is declared in.
pub struct Scope {
    bindings: Vec<(String, String)>,
    counter: usize,
}

impl Scope {
    pub closed spec fn model(&self) -> ScopeModel {
        ScopeModel {
            bindings: self.bindings@.map_values(|p: (String, String)| (p.0@, p.1@)),
            counter: self.counter as nat,
        }
    }

    /// An empty scope whose counter starts at zero.
    pub fn new() -> (r: Scope)
        ensures
            r.model().bindings == Seq::<(Seq<char>, Seq<char>)>::empty(),
            r.model().counter == 0,
    {
        let r = Scope { bindings: Vec::new(), counter: 0 };
        assert(r.model().bindings =~= Seq::<(Seq<char>, Seq<char>)>::empty());
        r
    }

    /// Whether another name can still be minted.
    pub fn has_room(&self) -> (r: bool)
        ensures
            r == (self.model().counter < usize::MAX),
    {
        self.counter < usize::MAX
    }

    /// A fresh identifier `prefix_n` for a temporary; binds nothing.
    pub fn fresh(&mut self, prefix: &str) -> (r: String)
        requires
            old(self).model().counter < usize::MAX,
        ensures
            (final(self).model(), r@) == old(self).model().minted(prefix@),
    {
        let mut r = String::from_str(prefix);
        push_char(&mut r, '_');
        let n = usize_text(self.counter);
        r.append(n.as_str());
        self.counter = self.counter + 1;
        proof {
            assert(self.model().bindings =~= old(self).model().bindings);
        }
        r
    }

    /// Binds `local` to a fresh identifier `local_n` and returns it.
    pub fn register(&mut self, local: &str) -> (r: String)
        requires
            old(self).model().counter < usize::MAX,
        ensures
            (final(self).model(), r@) == old(self).model().registered(local@),
    {
        let mut r = String::from_str(local);
        push_char(&mut r, '_');
        let n = usize_text(self.counter);
        r.append(n.as_str());
        assert(r@ =~= fresh_name(local@, self.counter as nat));
        self.counter = self.counter + 1;
        self.bindings.push((String::from_str(local), r.clone()));
        proof {
            assert(self.model().bindings =~= old(self).model().bindings.push((local@, r@)));
        }
        r
    }

    /// The innermost binding of `local`, if any.
    pub fn lookup(&self, local: &str) -> (r: Option<String>)
        ensures
            match r {
                Some(s) => self.model().lookup(local@) == Some(s@),
                None => self.model().lookup(local@).is_none(),
            },
    {
        let key = String::from_str(local);
        let mut i: usize = self.bindings.len();
        assert(self.model().bindings.subrange(0, i as int) =~= self.model().bindings);
        while i > 0
            invariant
                i <= self.bindings@.len(),
                key@ == local@,
                lookup_in(self.model().bindings, local@)
                    == lookup_in(self.model().bindings.subrange(0, i as int), local@),
            decreases i,
        {
            let ghost sub = self.model().bindings.subrange(0, i as int);
            assert(sub.drop_last() =~= self.model().bindings.subrange(0, i - 1));
            if self.bindings[i - 1].0 == key {
                return Some(self.bindings[i - 1].1.clone());
            }
            i = i - 1;
        }
        None
    }

    /// A copy of this scope, for the body of a function declared in it.
    pub fn child(&self) -> (r: Scope)
        ensures
            r.model() == self.model(),
    {
        let mut b: Vec<(String, String)> = Vec::new();
        let mut i: usize = 0;
        while i < self.bindings.len()
            invariant
                i <= self.bindings@.len(),
                b@.map_values(|p: (String, String)| (p.0@, p.1@))
                    =~= self.model().bindings.subrange(0, i as int),
            decreases self.bindings@.len() - i,
        {
            let ghost old_b = b@;
            b.push((self.bindings[i].0.clone(), self.bindings[i].1.clone()));
            assert(b@.map_values(|p: (String, String)| (p.0@, p.1@))
                =~= old_b.map_values(|p: (String, String)| (p.0@, p.1@)).push(self.model().bindings[i as int]));
            i = i + 1;
        }
        let r = Scope { bindings: b, counter: self.counter };
        assert(r.model().bindings =~= self.model().bindings);
        r
    }

    /// Takes over the counter of a child scope when it is further on, so
    /// that names minted there are never minted again here; the counter
    /// never goes back.
    pub fn take_counter(&mut self, child: &Scope)
        ensures
            final(self).model() == (ScopeModel {
                counter: if child.model().counter >= old(self).model().counter {
                    child.model().counter
                } else {
                    old(self).model().counter
                },
                ..old(self).model()
            }),
    {
        if child.counter >= self.counter {
            self.counter = child.counter;
        }
    }
}

proof fn lemma_decimal_digits(n: nat)
    ensures
        decimal(n).len() >= 1,
        forall|i: int| 0 <= i < decimal(n).len() ==> decimal(n)[i] != '_',
    decreases n,
{
    reveal(decimal);
    if n >= 10 {
        lemma_decimal_digits(n / 10);
    }
}

proof fn lemma_decimal_injective(n: nat, m: nat)
    requires
        decimal(n) == decimal(m),
    ensures
        n == m,
    decreases n,
{
    reveal(decimal);
    if n < 10 && m < 10 {
        assert(decimal(n)[0] == digit_char(n));
    } else if n < 10 {
        lemma_decimal_digits(m / 10);
        assert(decimal(m).len() >= 2);
    } else if m < 10 {
        lemma_decimal_digits(n / 10);
        assert(decimal(n).len() >= 2);
    } else {
        assert(decimal(n).last() == digit_char(n % 10));
        assert(decimal(n).drop_last() =~= decimal(n / 10));
        assert(decimal(m).drop_last() =~= decimal(m / 10));
        lemma_decimal_injective(n / 10, m / 10);
    }
}

/// Names minted at two counter values are equal only when the counter values
/// and the prefixes are: a generated identifier is never issued twice.
pub proof fn lemma_fresh_name_injective(a: Seq<char>, n: nat, b: Seq<char>, m: nat)
    requires
        fresh_name(a, n) == fresh_name(b, m),
    ensures
        n == m,
        a == b,
{
    let s = fresh_name(a, n);
    let dn = decimal(n);
    let dm = decimal(m);
    lemma_decimal_digits(n);
    lemma_decimal_digits(m);
    if dn.len() < dm.len() {
        let k = s.len() - 1 - dn.len();
        assert(s[k] == '_');
        assert(s[k] == dm[dm.len() - 1 - dn.len()]);
    } else if dm.len() < dn.len() {
        let k = s.len() - 1 - dm.len();
        assert(s[k] == '_');
        assert(s[k] == dn[dn.len() - 1 - dm.len()]);
    } else {
        assert(dn =~= s.subrange(s.len() - dn.len(), s.len() as int));
        assert(dm =~= s.subrange(s.len() - dm.len(), s.len() as int));
        lemma_decimal_injective(n, m);
        assert(a =~= s.subrange(0, a.len() as int));
        assert(b =~= s.subrange(0, b.len() as int));
    }
}

/// Hygiene: binding one source name twice, first in a scope and then in a
/// copy of it (a nested scope), gives two distinct identifiers, and a read
/// in each scope finds that scope's innermost binding; a binding in a
/// sibling scope, minted later from the same counter, is distinct too.
pub proof fn lemma_hygiene(s: ScopeModel, x: Seq<char>, later: nat)
    requires
        later > s.counter,
    ensures
        ({
            let (outer, n1) = s.registered(x);
            let (inner, n2) = outer.registered(x);
            &&& n1 != n2
            &&& outer.lookup(x) == Some(n1)
            &&& inner.lookup(x) == Some(n2)
        }),
        s.registered(x).1 != (ScopeModel { counter: later, ..s }).registered(x).1,
{
    let (outer, n1) = s.registered(x);
    let (inner, n2) = outer.registered(x);
    if n1 == n2 {
        lemma_fresh_name_injective(x, s.counter, x, outer.counter);
    }
    let m = (ScopeModel { counter: later, ..s }).registered(x).1;
    if n1 == m {
        lemma_fresh_name_injective(x, s.counter, x, later);
    }
}

proof fn lemma_lookup_found(b: Seq<(Seq<char>, Seq<char>)>, x: Seq<char>)
    ensures
        lookup_in(b, x) matches Some(v) ==> exists|k: int| 0 <= k < b.len() && #[trigger] b[k] == (x, v),
    decreases b.len(),
{
    if b.len() > 0 && b.last().0 != x {
        lemma_lookup_found(b.drop_last(), x);
        if let Some(v) = lookup_in(b, x) {
            let k = choose|k: int| 0 <= k < b.drop_last().len() && #[trigger] b.drop_last()[k] == (x, v);
            assert(b[k] == (x, v));
        }
    } else if b.len() > 0 {
        assert(b[b.len() - 1] == (x, b.last().1));
    }
}

/// Hygiene across nested scopes: in a well-formed scope, binding a name
/// gives an identifier distinct from every identifier already bound, in
/// particular from the binding it shadows, and the scope stays well formed.
pub proof fn lemma_register_fresh(s: ScopeModel, x: Seq<char>)
    requires
        s.wf(),
    ensures
        forall|k: int| 0 <= k < s.bindings.len() ==> s.bindings[k].1 != s.registered(x).1,
        s.lookup(x) matches Some(v) ==> v != s.registered(x).1,
        s.registered(x).0.wf(),
{
    let n = s.registered(x).1;
    let t = s.registered(x).0;
    assert forall|k: int| 0 <= k < s.bindings.len() implies s.bindings[k].1 != n by {
        assert(minted_below(s.bindings[k], s.counter));
        let c = choose|c: nat| c < s.counter && #[trigger] fresh_name(s.bindings[k].0, c) == s.bindings[k].1;
        if s.bindings[k].1 == n {
            lemma_fresh_name_injective(s.bindings[k].0, c, x, s.counter);
        }
    }
    lemma_lookup_found(s.bindings, x);
    assert forall|k: int| 0 <= k < t.bindings.len() implies #[trigger] minted_below(t.bindings[k], t.counter) by {
        if k < s.bindings.len() {
            assert(t.bindings[k] == s.bindings[k]);
            assert(minted_below(s.bindings[k], s.counter));
            let c = choose|c: nat| c < s.counter && #[trigger] fresh_name(s.bindings[k].0, c) == s.bindings[k].1;
            assert(fresh_name(t.bindings[k].0, c) == t.bindings[k].1);
        } else {
            assert(fresh_name(t.bindings[k].0, s.counter) == t.bindings[k].1);
        }
    }
}

} // verus!
