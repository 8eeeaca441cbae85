//! Identifier normalization: bare IDs, `spotify:<type>:<id>` URIs and
//! `.../<type>/<id>` URLs.
use vstd::prelude::*;

use crate::senum::{kind_name, Type};

verus! {

/// The fields of `s` between occurrences of `d`, as `str::split` yields them:
/// `n` occurrences give `n + 1` fields, and the empty string gives one empty field.
pub open spec fn split(s: Seq<char>, d: char) -> Seq<Seq<char>>
    decreases s.len(),
{
    if s.len() == 0 {
        seq![Seq::<char>::empty()]
    } else {
        let init = split(s.drop_last(), d);
        if s.last() == d {
            init.push(Seq::<char>::empty())
        } else {
            init.update(init.len() - 1, init.last().push(s.last()))
        }
    }
}

/// The last field of `s` when it splits on `d` into at least three fields of
/// which the second-to-last names `t`.
pub open spec fn typed_field(t: Type, s: Seq<char>, d: char) -> Option<Seq<char>> {
    let f = split(s, d);
    if f.len() >= 3 && f[f.len() - 2] == kind_name(t) {
        Some(f.last())
    } else {
        None
    }
}

/// The bare ID that `raw` denotes for resource type `t`.
///
/// When `raw` has at least three `:`-separated fields it is read as a URI: a
/// matching type yields the last field, a mismatch leaves `raw` as it is.
/// Otherwise it is read the same way as a `/`-separated URL. Anything that is
/// neither stays as it is: it is taken to be a bare ID already.
pub open spec fn normalized_id(t: Type, raw: Seq<char>) -> Seq<char> {
    if split(raw, ':').len() >= 3 {
        match typed_field(t, raw, ':') {
            Some(id) => id,
            None => raw,
        }
    } else {
        match typed_field(t, raw, '/') {
            Some(id) => id,
            None => raw,
        }
    }
}

/// The URI `spotify:<type>:<id>` of the ID that `raw` denotes.
pub open spec fn normalized_uri(t: Type, raw: Seq<char>) -> Seq<char> {
    "spotify:"@ + kind_name(t) + ":"@ + normalized_id(t, raw)
}

pub proof fn lemma_split_nonempty(s: Seq<char>, d: char)
    ensures
        split(s, d).len() >= 1,
    decreases s.len(),
{
    if s.len() > 0 {
        lemma_split_nonempty(s.drop_last(), d);
    }
}

/// A string without the delimiter is a single field.
pub proof fn lemma_split_without_delimiter(s: Seq<char>, d: char)
    requires
        !s.contains(d),
    ensures
        split(s, d) == seq![s],
    decreases s.len(),
{
    if s.len() > 0 {
        let p = s.drop_last();
        assert(!p.contains(d)) by {
            if p.contains(d) {
                let i = choose|i: int| 0 <= i < p.len() && p[i] == d;
                assert(s[i] == d);
            }
        }
        assert(s.last() != d) by {
            assert(s[s.len() - 1] == s.last());
        }
        lemma_split_without_delimiter(p, d);
        assert(p.push(s.last()) =~= s);
        assert(seq![p].update(0, p.push(s.last())) =~= seq![s]);
    } else {
        assert(s =~= Seq::<char>::empty());
    }
}

/// Splitting `a`, the delimiter, then `b` gives the fields of `a` followed by
/// those of `b`.
pub proof fn lemma_split_join(a: Seq<char>, b: Seq<char>, d: char)
    ensures
        split(a.push(d) + b, d) == split(a, d) + split(b, d),
    decreases b.len(),
{
    if b.len() == 0 {
        assert(a.push(d) + b =~= a.push(d));
        assert(a.push(d).drop_last() =~= a);
        assert(split(a, d).push(Seq::<char>::empty()) =~= split(a, d) + split(b, d));
    } else {
        let s = a.push(d) + b;
        let b0 = b.drop_last();
        assert(s.drop_last() =~= a.push(d) + b0);
        assert(s.last() == b.last());
        lemma_split_join(a, b0, d);
        lemma_split_nonempty(b0, d);
        lemma_split_nonempty(a, d);
        let fa = split(a, d);
        let fb0 = split(b0, d);
        if b.last() == d {
            assert((fa + fb0).push(Seq::<char>::empty()) =~= fa + fb0.push(Seq::<char>::empty()));
        } else {
            assert((fa + fb0).update((fa + fb0).len() - 1, (fa + fb0).last().push(b.last()))
                =~= fa + fb0.update(fb0.len() - 1, fb0.last().push(b.last())));
        }
    }
}

/// Resource type names hold neither delimiter.
pub proof fn lemma_kind_name_plain(t: Type)
    ensures
        !kind_name(t).contains(':'),
        !kind_name(t).contains('/'),
{
    reveal_strlit("artist");
    reveal_strlit("album");
    reveal_strlit("track");
    reveal_strlit("playlist");
    reveal_strlit("user");
    reveal_strlit("show");
    reveal_strlit("episode");
    let n = kind_name(t);
    assert forall|i: int| 0 <= i < n.len() implies n[i] != ':' && n[i] != '/' by {
        match t {
            Type::Artist => {},
            Type::Album => {},
            Type::Track => {},
            Type::Playlist => {},
            Type::User => {},
            Type::Show => {},
            Type::Episode => {},
        }
    }
}

/// An ID without `:` or `/` is already bare: normalizing it changes nothing.
pub proof fn lemma_bare_id_unchanged(t: Type, s: Seq<char>)
    requires
        !s.contains(':'),
        !s.contains('/'),
    ensures
        normalized_id(t, s) == s,
{
    lemma_split_without_delimiter(s, ':');
    lemma_split_without_delimiter(s, '/');
}

/// Normalizing the URI built from `s` gives back the ID that `s` denotes, and
/// building the URI a second time changes nothing. This holds whenever that ID
/// holds no `:`; an ID with a `:` (left in place when a URI names another type)
/// is read back as a URI instead.
pub proof fn lemma_uri_round_trip(t: Type, s: Seq<char>)
    requires
        !normalized_id(t, s).contains(':'),
    ensures
        normalized_id(t, normalized_uri(t, s)) == normalized_id(t, s),
        normalized_uri(t, normalized_uri(t, s)) == normalized_uri(t, s),
{
    reveal_strlit("spotify:");
    reveal_strlit("spotify");
    reveal_strlit(":");
    let id = normalized_id(t, s);
    let k = kind_name(t);
    let u = normalized_uri(t, s);
    assert(u =~= "spotify"@.push(':') + (k.push(':') + id));
    lemma_kind_name_plain(t);
    assert(!"spotify"@.contains(':')) by {
        assert forall|i: int| 0 <= i < "spotify"@.len() implies "spotify"@[i] != ':' by {}
    }
    lemma_split_without_delimiter("spotify"@, ':');
    lemma_split_without_delimiter(k, ':');
    lemma_split_without_delimiter(id, ':');
    lemma_split_join(k, id, ':');
    lemma_split_join("spotify"@, k.push(':') + id, ':');
    assert(split(u, ':') =~= seq!["spotify"@, k, id]);
}

/// Whether `c` occurs in `s`.
pub(crate) fn has_char(s: &str, c: char) -> (r: bool)
    ensures
        r == s@.contains(c),
{
    let n = s.unicode_len();
    let mut i: usize = 0;
    while i < n
        invariant
            n == s@.len(),
            i <= n,
            forall|j: int| 0 <= j < i ==> s@[j] != c,
        decreases n - i,
    {
        if s.get_char(i) == c {
            return true;
        }
        i = i + 1;
    }
    false
}

/// The fields of `s` between occurrences of `d`.
pub(crate) fn split_fields(s: &str, d: char) -> (r: Vec<String>)
    ensures
        r@.map_values(|f: String| f@) == split(s@, d),
{
    let n = s.unicode_len();
    let mut fields: Vec<String> = Vec::new();
    let mut start: usize = 0;
    let mut i: usize = 0;
    assert(s@.subrange(0, 0) =~= Seq::<char>::empty());
    assert(fields@.map_values(|f: String| f@).push(s@.subrange(0, 0)) =~= seq![Seq::<char>::empty()]);
    while i < n
        invariant
            n == s@.len(),
            start <= i <= n,
            fields@.map_values(|f: String| f@).push(s@.subrange(start as int, i as int))
                == split(s@.subrange(0, i as int), d),
        decreases n - i,
    {
        let c = s.get_char(i);
        let ghost prev = s@.subrange(0, i as int);
        let ghost next = s@.subrange(0, i + 1);
        assert(next.drop_last() =~= prev);
        assert(next.last() == c);
        if c == d {
            let field = s.substring_char(start, i).to_owned();
            let ghost before = fields@.map_values(|f: String| f@);
            fields.push(field);
            assert(fields@.map_values(|f: String| f@) =~= before.push(s@.subrange(start as int, i as int)));
            start = i + 1;
            assert(s@.subrange(start as int, i + 1) =~= Seq::<char>::empty());
        } else {
            assert(s@.subrange(start as int, i as int).push(c) =~= s@.subrange(start as int, i + 1));
            let ghost before = fields@.map_values(|f: String| f@);
            assert(before.push(s@.subrange(start as int, i as int)).update(
                before.len() as int,
                s@.subrange(start as int, i + 1),
            ) =~= before.push(s@.subrange(start as int, i + 1)));
        }
        i = i + 1;
    }
    let last = s.substring_char(start, n).to_owned();
    let ghost before = fields@.map_values(|f: String| f@);
    fields.push(last);
    assert(fields@.map_values(|f: String| f@) =~= before.push(s@.subrange(start as int, n as int)));
    assert(s@.subrange(0, n as int) =~= s@);
    fields
}

} // verus!
