use vstd::prelude::*;

verus! {

/// What a lookup returns for a symbol with no entry, or for no symbol at all:
/// the largest address, which no replacement may take.
pub const NOT_FOUND: usize = usize::MAX;

/// The replacement recorded for `k` in `s`: that of its first entry, if any.
pub open spec fn lookup_in(s: Seq<(Seq<u8>, usize)>, k: Seq<u8>) -> Option<usize>
    decreases s.len(),
{
    if s.len() == 0 {
        None
    } else if s[0].0 == k {
        Some(s[0].1)
    } else {
        lookup_in(s.subrange(1, s.len() as int), k)
    }
}

/// What a lookup of `k` returns over the entries `s`.
pub open spec fn get_spec(s: Seq<(Seq<u8>, usize)>, k: Option<Seq<u8>>) -> usize {
    match k {
        None => NOT_FOUND,
        Some(k) => match lookup_in(s, k) {
            Some(v) => v,
            None => NOT_FOUND,
        },
    }
}

/// The entries after inserting `k` with `v`: the first writer for a name wins.
pub open spec fn insert_spec(s: Seq<(Seq<u8>, usize)>, k: Seq<u8>, v: usize) -> Seq<(Seq<u8>, usize)> {
    if lookup_in(s, k) is Some {
        s
    } else {
        s.push((k, v))
    }
}

proof fn lemma_lookup_push(s: Seq<(Seq<u8>, usize)>, x: (Seq<u8>, usize), k: Seq<u8>)
    ensures
        lookup_in(s.push(x), k) == (if lookup_in(s, k) is Some {
            lookup_in(s, k)
        } else if x.0 == k {
            Some(x.1)
        } else {
            None::<usize>
        }),
    decreases s.len(),
{
    if s.len() > 0 {
        let t = s.subrange(1, s.len() as int);
        assert(s.push(x)[0] == s[0]);
        assert(s.push(x).subrange(1, s.push(x).len() as int) =~= t.push(x));
        lemma_lookup_push(t, x, k);
    } else {
        assert(s.push(x)[0] == x);
        assert(s.push(x).subrange(1, 1) =~= Seq::<(Seq<u8>, usize)>::empty());
        assert(lookup_in(Seq::<(Seq<u8>, usize)>::empty(), k) is None);
    }
}

/// The table of symbol replacements, in the order the names were first
/// inserted, at most one entry per name.
pub struct Whitelist {
    entries: Vec<(Vec<u8>, usize)>,
}

fn same_bytes(a: &Vec<u8>, b: &[u8]) -> (r: bool)
    ensures
        r == (a@ == b@),
{
    if a.len() != b.len() {
        return false;
    }
    let mut i: usize = 0;
    while i < a.len()
        invariant
            a@.len() == b@.len(),
            i <= a@.len(),
            forall|j: int| 0 <= j < i ==> a@[j] == b@[j],
        decreases a@.len() - i,
    {
        if a[i] != b[i] {
            return false;
        }
        i = i + 1;
    }
    assert(a@ =~= b@);
    true
}

fn copy_bytes(b: &[u8]) -> (r: Vec<u8>)
    ensures
        r@ == b@,
{
    let mut r: Vec<u8> = Vec::new();
    let mut i: usize = 0;
    while i < b.len()
        invariant
            i <= b@.len(),
            r@ == b@.subrange(0, i as int),
        decreases b@.len() - i,
    {
        r.push(b[i]);
        i = i + 1;
        assert(r@ =~= b@.subrange(0, i as int));
    }
    assert(r@ =~= b@);
    r
}

impl Whitelist {
    pub closed spec fn view(&self) -> Seq<(Seq<u8>, usize)> {
        self.entries@.map_values(|e: (Vec<u8>, usize)| (e.0@, e.1))
    }

    /// An empty table.
    pub fn new() -> (r: Whitelist)
        ensures
            r.view() == Seq::<(Seq<u8>, usize)>::empty(),
    {
        let r = Whitelist { entries: Vec::new() };
        assert(r.view() =~= Seq::<(Seq<u8>, usize)>::empty());
        r
    }

    fn find(&self, symbol: &[u8]) -> (r: Option<usize>)
        ensures
            r == lookup_in(self.view(), symbol@),
    {
        let mut i: usize = 0;
        assert(self.view().subrange(0, self.view().len() as int) =~= self.view());
        while i < self.entries.len()
            invariant
                i <= self.view().len(),
                self.view().len() == self.entries@.len(),
                lookup_in(self.view(), symbol@) == lookup_in(
                    self.view().subrange(i as int, self.view().len() as int),
                    symbol@,
                ),
            decreases self.entries@.len() - i,
        {
            let ghost rest = self.view().subrange(i as int, self.view().len() as int);
            assert(rest[0] == (self.entries@[i as int].0@, self.entries@[i as int].1));
            if same_bytes(&self.entries[i].0, symbol) {
                return Some(self.entries[i].1);
            }
            assert(rest.subrange(1, rest.len() as int) =~= self.view().subrange(
                i + 1,
                self.view().len() as int,
            ));
            i = i + 1;
        }
        None
    }

    /// The replacement address recorded for `symbol`, or `NOT_FOUND` when the
    /// symbol has none or no symbol is given.
    pub fn get(&self, symbol: Option<&[u8]>) -> (r: usize)
        ensures
            r == get_spec(self.view(), match symbol {
                Some(s) => Some(s@),
                None => None::<Seq<u8>>,
            }),
    {
        match symbol {
            None => NOT_FOUND,
            Some(s) => match self.find(s) {
                Some(v) => v,
                None => NOT_FOUND,
            },
        }
    }

    /// Records `replacement` for `symbol` unless the symbol already has an
    /// entry, which then stays as it was.
    pub fn insert(&mut self, symbol: &[u8], replacement: usize)
        requires
            replacement != NOT_FOUND,
        ensures
            final(self).view() == insert_spec(old(self).view(), symbol@, replacement),
    {
        if self.find(symbol).is_none() {
            let key = copy_bytes(symbol);
            self.entries.push((key, replacement));
            assert(self.view() =~= old(self).view().push((symbol@, replacement)));
        }
    }
}

/// Inserting one name twice keeps the first replacement, and a name that was
/// never inserted is looked up as `NOT_FOUND`, never as zero.
pub proof fn lemma_first_insert_wins(
    s: Seq<(Seq<u8>, usize)>,
    k: Seq<u8>,
    a: usize,
    b: usize,
    other: Seq<u8>,
)
    requires
        lookup_in(s, k) is None,
        lookup_in(s, other) is None,
        other != k,
    ensures
        get_spec(insert_spec(insert_spec(s, k, a), k, b), Some(k)) == a,
        get_spec(insert_spec(insert_spec(s, k, a), k, b), Some(other)) == NOT_FOUND,
        NOT_FOUND != 0,
{
    lemma_lookup_push(s, (k, a), k);
    lemma_lookup_push(s, (k, a), other);
}

} // verus!
