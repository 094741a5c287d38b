use vstd::prelude::*;

verus! {

broadcast use vstd::seq_lib::group_to_multiset_ensures;

/// Strict lexicographic order of character sequences, by code point; for UTF-8
/// text this is the order of its bytes.
pub open spec fn lex_lt(a: Seq<char>, b: Seq<char>) -> bool
    decreases a.len(),
{
    if a.len() == 0 {
        b.len() > 0
    } else if b.len() == 0 {
        false
    } else if a[0] != b[0] {
        (a[0] as int) < (b[0] as int)
    } else {
        lex_lt(a.drop_first(), b.drop_first())
    }
}

pub open spec fn lex_le(a: Seq<char>, b: Seq<char>) -> bool {
    a == b || lex_lt(a, b)
}

/// Of two sequences, one comes first or they are equal.
pub proof fn lemma_lex_total(a: Seq<char>, b: Seq<char>)
    ensures
        lex_lt(a, b) || lex_le(b, a),
    decreases a.len(),
{
    if a.len() != 0 && b.len() != 0 && a[0] == b[0] {
        lemma_lex_total(a.drop_first(), b.drop_first());
        if a.drop_first() == b.drop_first() {
            assert(a =~= seq![a[0]] + a.drop_first());
            assert(b =~= seq![b[0]] + b.drop_first());
            assert(a =~= b);
        } else if lex_lt(a.drop_first(), b.drop_first()) {
            assert(lex_lt(a, b));
        } else {
            assert(lex_lt(b, a));
        }
    } else if a.len() != 0 && b.len() != 0 {
        assert((a[0] as int) != (b[0] as int));
        if (a[0] as int) < (b[0] as int) {
            assert(lex_lt(a, b));
        } else {
            assert(lex_lt(b, a));
        }
    } else if a.len() == 0 && b.len() == 0 {
        assert(a =~= b);
    }
}

/// Whether each name comes no later than the next one.
pub open spec fn sorted(s: Seq<String>) -> bool {
    forall|i: int| 0 <= i < s.len() - 1 ==> lex_le(#[trigger] s[i]@, s[i + 1]@)
}

/// Whether `a` comes strictly before `b`.
pub fn lex_less(a: &String, b: &String) -> (r: bool)
    ensures
        r == lex_lt(a@, b@),
{
    let sa = a.as_str();
    let sb = b.as_str();
    let la = sa.unicode_len();
    let lb = sb.unicode_len();
    let mut i: usize = 0;
    assert(a@.skip(0) =~= a@);
    assert(b@.skip(0) =~= b@);
    while i < la && i < lb
        invariant
            sa@ == a@,
            sb@ == b@,
            la == a@.len(),
            lb == b@.len(),
            i <= la,
            i <= lb,
            lex_lt(a@, b@) == lex_lt(a@.skip(i as int), b@.skip(i as int)),
        decreases la - i,
    {
        let ca = sa.get_char(i);
        let cb = sb.get_char(i);
        assert(a@.skip(i as int)[0] == ca);
        assert(b@.skip(i as int)[0] == cb);
        if ca != cb {
            return (ca as u32) < (cb as u32);
        }
        assert(a@.skip(i as int).drop_first() =~= a@.skip(i as int + 1));
        assert(b@.skip(i as int).drop_first() =~= b@.skip(i as int + 1));
        i = i + 1;
    }
    i < lb
}

/// The index of the last '/' of a path, or -1 when it has none.
pub open spec fn last_slash(p: Seq<char>) -> int
    decreases p.len(),
{
    if p.len() == 0 {
        -1
    } else if p.last() == '/' {
        p.len() - 1
    } else {
        last_slash(p.drop_last())
    }
}

/// The name of a file: the part of its path after the last '/'.
pub open spec fn base_name_spec(p: Seq<char>) -> Seq<char> {
    p.subrange(last_slash(p) + 1, p.len() as int)
}

proof fn lemma_last_slash(p: Seq<char>, j: int)
    requires
        0 <= j <= p.len(),
        forall|t: int| j <= t < p.len() ==> p[t] != '/',
    ensures
        j > 0 && p[j - 1] == '/' ==> last_slash(p) == j - 1,
        j == 0 ==> last_slash(p) == -1,
        -1 <= last_slash(p) < p.len(),
    decreases p.len(),
{
    if p.len() > 0 && p.len() > j {
        let q = p.drop_last();
        assert forall|t: int| j <= t < q.len() implies q[t] != '/' by {
            assert(q[t] == p[t]);
        }
        lemma_last_slash(q, j);
    } else if p.len() > 0 {
        lemma_last_slash_bound(p);
    }
}

proof fn lemma_last_slash_bound(p: Seq<char>)
    ensures
        -1 <= last_slash(p) < p.len(),
    decreases p.len(),
{
    if p.len() > 0 {
        lemma_last_slash_bound(p.drop_last());
    }
}

/// The name of the file at `path`.
pub fn base_name(path: &String) -> (r: String)
    ensures
        r@ == base_name_spec(path@),
{
    let s = path.as_str();
    let n = s.unicode_len();
    let mut j: usize = n;
    while j > 0
        invariant
            s@ == path@,
            n == path@.len(),
            j <= n,
            forall|t: int| j <= t < n ==> path@[t] != '/',
        ensures
            j <= n,
            forall|t: int| j <= t < n ==> path@[t] != '/',
            j == 0 || path@[j - 1] == '/',
        decreases j,
    {
        if s.get_char(j - 1) == '/' {
            break;
        }
        j = j - 1;
    }
    proof {
        lemma_last_slash(path@, j as int);
    }
    String::from_str(s.substring_char(j, n))
}

/// Whether `p` begins with `prefix`.
pub open spec fn starts_with(p: Seq<char>, prefix: Seq<char>) -> bool {
    prefix.len() <= p.len() && p.subrange(0, prefix.len() as int) == prefix
}

/// Whether `s` begins with `prefix`.
pub fn has_prefix(s: &String, prefix: &String) -> (r: bool)
    ensures
        r == starts_with(s@, prefix@),
{
    let a = s.as_str();
    let b = prefix.as_str();
    let la = a.unicode_len();
    let lb = b.unicode_len();
    if lb > la {
        return false;
    }
    let mut i: usize = 0;
    while i < lb
        invariant
            a@ == s@,
            b@ == prefix@,
            la == s@.len(),
            lb == prefix@.len(),
            lb <= la,
            i <= lb,
            forall|t: int| 0 <= t < i ==> s@[t] == prefix@[t],
        decreases lb - i,
    {
        if a.get_char(i) != b.get_char(i) {
            assert(s@.subrange(0, lb as int)[i as int] != prefix@[i as int]);
            return false;
        }
        i = i + 1;
    }
    assert(s@.subrange(0, lb as int) =~= prefix@);
    true
}

/// The paths among `files` whose file names begin with `prefix`, in order.
pub open spec fn select(files: Seq<String>, prefix: Seq<char>) -> Seq<String>
    decreases files.len(),
{
    if files.len() == 0 {
        Seq::empty()
    } else if starts_with(base_name_spec(files.last()@), prefix) {
        select(files.drop_last(), prefix).push(files.last())
    } else {
        select(files.drop_last(), prefix)
    }
}

/// The gain label of a capture: the six characters at offset 6 of its file name
/// (`{fem}_{lna}_{vga}` in `hb_iq_{fem}_{lna}_{vga}.txt`).
pub open spec fn gain_label_spec(name: Seq<char>) -> Option<Seq<char>> {
    if name.len() >= 12 {
        Some(name.subrange(6, 12))
    } else {
        None
    }
}

/// The gain label of a capture's file name; `None` when the name is too short.
pub fn gain_label(name: &String) -> (r: Option<String>)
    ensures
        r is Some <==> gain_label_spec(name@) is Some,
        r is Some ==> r->Some_0@ == gain_label_spec(name@)->Some_0,
{
    let s = name.as_str();
    if s.unicode_len() >= 12 {
        Some(String::from_str(s.substring_char(6, 12)))
    } else {
        None
    }
}

/// The captured files of a session, by path.
pub struct FileCatalog {
    pub file_list: Vec<String>,
}

impl FileCatalog {
    /// A catalog of `file_list`.
    pub fn new(file_list: Vec<String>) -> (r: FileCatalog)
        ensures
            r.file_list@ == file_list@,
    {
        FileCatalog { file_list }
    }

    /// Adds a file at the end.
    pub fn add_file(&mut self, filename: String)
        ensures
            final(self).file_list@ == old(self).file_list@.push(filename),
    {
        self.file_list.push(filename);
    }

    /// The same files, in lexicographic order of their paths.
    pub fn sort_file(self) -> (r: FileCatalog)
        ensures
            sorted(r.file_list@),
            r.file_list@.to_multiset() == self.file_list@.to_multiset(),
    {
        let mut out: Vec<String> = Vec::new();
        let src = self.file_list;
        let mut k: usize = 0;
        while k < src.len()
            invariant
                k <= src@.len(),
                sorted(out@),
                out@.to_multiset() == src@.subrange(0, k as int).to_multiset(),
            decreases src@.len() - k,
        {
            let x = src[k].clone();
            let mut p: usize = 0;
            while p < out.len() && !lex_less(&x, &out[p])
                invariant
                    p <= out@.len(),
                    forall|t: int| 0 <= t < p ==> !lex_lt(x@, #[trigger] out@[t]@),
                decreases out@.len() - p,
            {
                p = p + 1;
            }
            proof {
                if p > 0 {
                    lemma_lex_total(x@, out@[p - 1]@);
                }
            }
            let ghost before = out@;
            out.insert(p, x);
            proof {
                assert forall|i: int| 0 <= i < out@.len() - 1 implies lex_le(
                    #[trigger] out@[i]@,
                    out@[i + 1]@,
                ) by {
                    if i + 1 < p {
                        assert(out@[i] == before[i] && out@[i + 1] == before[i + 1]);
                    } else if i + 1 == p {
                        assert(out@[i] == before[i]);
                    } else if i == p {
                        assert(out@[i + 1] == before[i]);
                        lemma_lex_total(x@, before[i]@);
                    } else {
                        assert(out@[i] == before[i - 1] && out@[i + 1] == before[i]);
                    }
                }
                assert(src@.subrange(0, k as int + 1) =~= src@.subrange(0, k as int).push(src@[k as int]));
                assert(before.insert(p as int, x).to_multiset() == before.to_multiset().insert(x)) by {
                    vstd::seq_lib::to_multiset_insert(before, p as int, x);
                }
            }
            k = k + 1;
        }
        assert(src@.subrange(0, src@.len() as int) =~= src@);
        FileCatalog { file_list: out }
    }

    /// The paths of the files whose names begin with `prefix`, in catalog order.
    pub fn band_files(&self, prefix: &String) -> (r: Vec<String>)
        ensures
            r@ == select(self.file_list@, prefix@),
    {
        let mut out: Vec<String> = Vec::new();
        let mut k: usize = 0;
        while k < self.file_list.len()
            invariant
                k <= self.file_list@.len(),
                out@ == select(self.file_list@.subrange(0, k as int), prefix@),
            decreases self.file_list@.len() - k,
        {
            let ghost pre = self.file_list@.subrange(0, k as int);
            let ghost next = self.file_list@.subrange(0, k as int + 1);
            assert(next.drop_last() =~= pre);
            let name = base_name(&self.file_list[k]);
            if has_prefix(&name, prefix) {
                out.push(self.file_list[k].clone());
            }
            k = k + 1;
        }
        assert(self.file_list@.subrange(0, self.file_list@.len() as int) =~= self.file_list@);
        out
    }
}

} // verus!
