use vstd::prelude::*;

verus! {

/// The pieces of `s` between occurrences of `sep`, as `str::split` yields them:
/// always at least one piece, empty pieces kept.
pub open spec fn split_on(s: Seq<char>, sep: char) -> Seq<Seq<char>>
    decreases s.len(),
{
    if s.len() == 0 {
        seq![Seq::<char>::empty()]
    } else {
        let pieces = split_on(s.drop_last(), sep);
        if s.last() == sep {
            pieces.push(Seq::<char>::empty())
        } else {
            pieces.update(pieces.len() - 1, pieces.last().push(s.last()))
        }
    }
}

pub proof fn lemma_split_nonempty(s: Seq<char>, sep: char)
    ensures split_on(s, sep).len() >= 1,
    decreases s.len(),
{
    if s.len() > 0 {
        lemma_split_nonempty(s.drop_last(), sep);
    }
}

/// Splits `s` at every `':'`.
pub fn split_colon(s: &str) -> (pieces: Vec<String>)
    ensures
        pieces.deep_view() == split_on(s@, ':'),
{
    let len = s.unicode_len();
    let ghost sv = s@;
    let mut pieces: Vec<String> = Vec::new();
    let mut start: usize = 0;
    let mut i: usize = 0;
    proof {
        assert(sv.take(0) =~= Seq::<char>::empty());
        assert(pieces.deep_view() =~= Seq::<Seq<char>>::empty());
        assert(sv.subrange(0, 0) =~= Seq::<char>::empty());
        assert(split_on(sv.take(0), ':') =~= pieces.deep_view().push(sv.subrange(0, 0)));
    }
    for c in it: s.chars()
        invariant
            it.seq() == sv,
            sv == s@,
            len == sv.len(),
            i == it.index(),
            start <= i <= len,
            split_on(sv.take(i as int), ':') == pieces.deep_view().push(sv.subrange(start as int, i as int)),
    {
        proof {
            assert(sv.take(i + 1).drop_last() =~= sv.take(i as int));
            lemma_split_nonempty(sv.take(i as int), ':');
        }
        if c == ':' {
            let piece = String::from_str(s.substring_char(start, i));
            pieces.push(piece);
            start = i + 1;
            proof {
                assert(sv.subrange(start as int, i + 1) =~= Seq::<char>::empty());
            }
        } else {
            proof {
                assert(sv.subrange(start as int, i + 1) =~= sv.subrange(start as int, i as int).push(c));
            }
        }
        i = i + 1;
    }
    let piece = String::from_str(s.substring_char(start, i));
    pieces.push(piece);
    proof {
        assert(sv.take(len as int) =~= sv);
    }
    pieces
}


/// Appends each of `segs`, in order, to `parts` unless it is already there.
pub open spec fn absorb(parts: Seq<Seq<char>>, segs: Seq<Seq<char>>) -> Seq<Seq<char>>
    decreases segs.len(),
{
    if segs.len() == 0 {
        parts
    } else {
        let merged = absorb(parts, segs.drop_last());
        if merged.contains(segs.last()) {
            merged
        } else {
            merged.push(segs.last())
        }
    }
}

/// The pieces written one after the other with `sep` between neighbours.
pub open spec fn join_with(parts: Seq<Seq<char>>, sep: char) -> Seq<char>
    decreases parts.len(),
{
    if parts.len() == 0 {
        Seq::<char>::empty()
    } else if parts.len() == 1 {
        parts[0]
    } else {
        join_with(parts.drop_last(), sep).push(sep) + parts.last()
    }
}

/// The common tool locations that always lead the search path, in this order.
pub open spec fn path_extras() -> Seq<Seq<char>> {
    seq![
        "/opt/homebrew/bin"@,
        "/opt/homebrew/sbin"@,
        "/usr/local/bin"@,
        "/usr/local/sbin"@,
        "/usr/bin"@,
        "/bin"@,
        "/usr/sbin"@,
        "/sbin"@,
    ]
}

/// The entries of the search path built from the current one.
pub open spec fn enhanced_entries(current: Seq<char>) -> Seq<Seq<char>> {
    absorb(path_extras(), split_on(current, ':'))
}

/// The search path built from the current one.
pub open spec fn enhanced(current: Seq<char>) -> Seq<char> {
    join_with(enhanced_entries(current), ':')
}

/// Whether `v` holds a string equal to `s`.
pub fn contains_string(v: &Vec<String>, s: &String) -> (found: bool)
    ensures
        found == v.deep_view().contains(s@),
{
    let mut k: usize = 0;
    while k < v.len()
        invariant
            k <= v.len(),
            forall|j: int| 0 <= j < k ==> v.deep_view()[j] != s@,
        decreases v.len() - k,
    {
        if v[k] == *s {
            proof {
                assert(v.deep_view()[k as int] == s@);
            }
            return true;
        }
        k = k + 1;
    }
    proof {
        if v.deep_view().contains(s@) {
            let j = choose|j: int| 0 <= j < v.deep_view().len() && v.deep_view()[j] == s@;
            assert(v.deep_view()[j] == s@);
        }
    }
    false
}

/// Writes the entries one after the other, separated by `':'`.
pub fn join_colon(parts: &Vec<String>) -> (joined: String)
    ensures
        joined@ == join_with(parts.deep_view(), ':'),
{
    let ghost pv = parts.deep_view();
    let mut joined = String::new();
    let mut k: usize = 0;
    proof {
        reveal_strlit(":");
        assert(pv.take(0) =~= Seq::<Seq<char>>::empty());
    }
    while k < parts.len()
        invariant
            pv == parts.deep_view(),
            k <= parts.len(),
            joined@ == join_with(pv.take(k as int), ':'),
        decreases parts.len() - k,
    {
        proof {
            assert(pv.take(k + 1).drop_last() =~= pv.take(k as int));
            assert(pv.take(k + 1).last() == pv[k as int]);
        }
        if k == 0 {
            joined.append(parts[k].as_str());
            proof {
                assert(pv.take(1) =~= seq![pv[0]]);
                assert(joined@ =~= pv[0]);
            }
        } else {
            joined.append(":");
            joined.append(parts[k].as_str());
            proof {
                reveal_strlit(":");
                assert(":"@ =~= seq![':']);
            }
        }
        k = k + 1;
    }
    proof {
        assert(pv.take(parts.len() as int) =~= pv);
    }
    joined
}

/// Builds a search path that puts the common tool locations first (Homebrew on
/// Apple silicon and Intel, then the system directories) and keeps every entry of
/// `current` after them, each entry once, in the order first seen.
pub fn enhanced_path(current: &str) -> (path: String)
    ensures
        path@ == enhanced(current@),
{
    let mut parts: Vec<String> = Vec::new();
    parts.push(String::from_str("/opt/homebrew/bin"));
    parts.push(String::from_str("/opt/homebrew/sbin"));
    parts.push(String::from_str("/usr/local/bin"));
    parts.push(String::from_str("/usr/local/sbin"));
    parts.push(String::from_str("/usr/bin"));
    parts.push(String::from_str("/bin"));
    parts.push(String::from_str("/usr/sbin"));
    parts.push(String::from_str("/sbin"));
    proof {
        assert(parts.deep_view() =~= path_extras());
    }
    let segs = split_colon(current);
    let ghost sv = segs.deep_view();
    let mut k: usize = 0;
    proof {
        assert(sv.take(0) =~= Seq::<Seq<char>>::empty());
    }
    while k < segs.len()
        invariant
            sv == segs.deep_view(),
            sv == split_on(current@, ':'),
            k <= segs.len(),
            parts.deep_view() == absorb(path_extras(), sv.take(k as int)),
        decreases segs.len() - k,
    {
        proof {
            assert(sv.take(k + 1).drop_last() =~= sv.take(k as int));
            assert(sv.take(k + 1).last() == sv[k as int]);
        }
        let seg = segs[k].clone();
        if !contains_string(&parts, &seg) {
            parts.push(seg);
            proof {
                assert(parts.deep_view() =~= absorb(path_extras(), sv.take(k as int)).push(sv[k as int]));
            }
        }
        k = k + 1;
    }
    proof {
        assert(sv.take(segs.len() as int) =~= sv);
    }
    join_colon(&parts)
}


proof fn lemma_absorb_prefix(parts: Seq<Seq<char>>, segs: Seq<Seq<char>>)
    ensures
        parts.len() <= absorb(parts, segs).len() <= parts.len() + segs.len(),
        forall|i: int| 0 <= i < parts.len() ==> #[trigger] absorb(parts, segs)[i] == parts[i],
    decreases segs.len(),
{
    if segs.len() > 0 {
        lemma_absorb_prefix(parts, segs.drop_last());
    }
}

proof fn lemma_absorb_members(parts: Seq<Seq<char>>, segs: Seq<Seq<char>>)
    ensures
        forall|x: Seq<char>| #[trigger] absorb(parts, segs).contains(x) <==> (parts.contains(x) || segs.contains(x)),
    decreases segs.len(),
{
    if segs.len() > 0 {
        let rest = segs.drop_last();
        lemma_absorb_members(parts, rest);
        assert forall|x: Seq<char>| #[trigger] absorb(parts, segs).contains(x) <==> (parts.contains(x) || segs.contains(x)) by {
            let merged = absorb(parts, rest);
            if segs.contains(x) && !rest.contains(x) {
                let j = choose|j: int| 0 <= j < segs.len() && segs[j] == x;
                if j < rest.len() {
                    assert(rest[j] == x);
                }
                assert(x == segs.last());
                if !merged.contains(x) {
                    assert(merged.push(x)[merged.len() as int] == x);
                }
            }
            if rest.contains(x) {
                let j = choose|j: int| 0 <= j < rest.len() && rest[j] == x;
                assert(segs[j] == x);
            }
            if absorb(parts, segs).contains(x) && !merged.contains(x) {
                assert(segs[segs.len() - 1] == x);
            }
            if merged.contains(x) && !merged.contains(segs.last()) {
                let j = choose|j: int| 0 <= j < merged.len() && merged[j] == x;
                assert(merged.push(segs.last())[j] == x);
            }
        }
    }
}

proof fn lemma_absorb_no_duplicates(parts: Seq<Seq<char>>, segs: Seq<Seq<char>>)
    requires
        parts.no_duplicates(),
    ensures
        absorb(parts, segs).no_duplicates(),
    decreases segs.len(),
{
    if segs.len() > 0 {
        lemma_absorb_no_duplicates(parts, segs.drop_last());
    }
}

proof fn lemma_absorb_within(parts: Seq<Seq<char>>, segs: Seq<Seq<char>>)
    requires
        forall|j: int| 0 <= j < segs.len() ==> parts.contains(#[trigger] segs[j]),
    ensures
        absorb(parts, segs) == parts,
    decreases segs.len(),
{
    if segs.len() > 0 {
        lemma_absorb_within(parts, segs.drop_last());
        assert(parts.contains(segs[segs.len() - 1]));
    }
}

proof fn lemma_absorb_fixed(parts: Seq<Seq<char>>, p: Seq<Seq<char>>)
    requires
        p.no_duplicates(),
        parts.len() <= p.len(),
        forall|i: int| 0 <= i < parts.len() ==> #[trigger] p[i] == parts[i],
    ensures
        absorb(parts, p) == p,
    decreases p.len(),
{
    if p.len() == parts.len() {
        assert(p =~= parts);
        assert forall|j: int| 0 <= j < p.len() implies parts.contains(#[trigger] p[j]) by {
            assert(parts[j] == p[j]);
        }
        lemma_absorb_within(parts, p);
    } else {
        let q = p.drop_last();
        lemma_absorb_fixed(parts, q);
        assert(!q.contains(p.last())) by {
            if q.contains(p.last()) {
                let j = choose|j: int| 0 <= j < q.len() && q[j] == p.last();
                assert(p[j] == p[p.len() - 1]);
            }
        }
        assert(q.push(p.last()) =~= p);
    }
}

proof fn lemma_split_pieces_free(s: Seq<char>, sep: char)
    ensures
        forall|j: int| 0 <= j < split_on(s, sep).len() ==> !(#[trigger] split_on(s, sep)[j]).contains(sep),
    decreases s.len(),
{
    lemma_split_nonempty(s, sep);
    if s.len() > 0 {
        let pieces = split_on(s.drop_last(), sep);
        lemma_split_pieces_free(s.drop_last(), sep);
        lemma_split_nonempty(s.drop_last(), sep);
        if s.last() != sep {
            let last = pieces.last().push(s.last());
            assert(!pieces.last().contains(sep));
            assert(!last.contains(sep)) by {
                if last.contains(sep) {
                    let k = choose|k: int| 0 <= k < last.len() && last[k] == sep;
                    if k < pieces.last().len() {
                        assert(pieces.last()[k] == sep);
                    }
                }
            }
        } else {
            assert(!Seq::<char>::empty().contains(sep));
        }
    }
}

proof fn lemma_split_append_free(x: Seq<char>, t: Seq<char>, sep: char)
    requires
        !t.contains(sep),
    ensures
        split_on(x + t, sep) == split_on(x, sep).update(
            split_on(x, sep).len() - 1,
            split_on(x, sep).last() + t,
        ),
    decreases t.len(),
{
    lemma_split_nonempty(x, sep);
    if t.len() == 0 {
        assert(x + t =~= x);
        assert(split_on(x, sep).last() + t =~= split_on(x, sep).last());
        assert(split_on(x, sep).update(split_on(x, sep).len() - 1, split_on(x, sep).last()) =~= split_on(x, sep));
    } else {
        let t0 = t.drop_last();
        assert(!t0.contains(sep)) by {
            if t0.contains(sep) {
                let k = choose|k: int| 0 <= k < t0.len() && t0[k] == sep;
                assert(t[k] == sep);
            }
        }
        assert(t.last() != sep) by {
            assert(t[t.len() - 1] == t.last());
        }
        lemma_split_append_free(x, t0, sep);
        assert((x + t).drop_last() =~= x + t0);
        assert((x + t).last() == t.last());
        assert(split_on(x, sep).last() + t0 + seq![t.last()] =~= split_on(x, sep).last() + t);
        let p0 = split_on(x + t0, sep);
        assert(p0.len() == split_on(x, sep).len());
        assert(p0.last().push(t.last()) =~= split_on(x, sep).last() + t);
        assert(p0.update(p0.len() - 1, p0.last().push(t.last())) =~= split_on(x, sep).update(
            split_on(x, sep).len() - 1,
            split_on(x, sep).last() + t,
        ));
    }
}

proof fn lemma_split_join(p: Seq<Seq<char>>, sep: char)
    requires
        p.len() >= 1,
        forall|j: int| 0 <= j < p.len() ==> !(#[trigger] p[j]).contains(sep),
    ensures
        split_on(join_with(p, sep), sep) == p,
    decreases p.len(),
{
    if p.len() == 1 {
        let e = Seq::<char>::empty();
        assert(!p[0].contains(sep));
        lemma_split_append_free(e, p[0], sep);
        assert(e + p[0] =~= p[0]);
        assert(split_on(e, sep) =~= seq![e]);
        assert(e + p[0] =~= p[0]);
        assert(seq![e].update(0, e + p[0]) =~= p);
    } else {
        let q = p.drop_last();
        assert forall|j: int| 0 <= j < q.len() implies !(#[trigger] q[j]).contains(sep) by {
            assert(q[j] == p[j]);
        }
        lemma_split_join(q, sep);
        let jq = join_with(q, sep);
        assert(jq.push(sep).drop_last() =~= jq);
        assert(split_on(jq.push(sep), sep) == q.push(Seq::<char>::empty()));
        assert(!p.last().contains(sep)) by {
            assert(p[p.len() - 1] == p.last());
        }
        lemma_split_append_free(jq.push(sep), p.last(), sep);
        assert(Seq::<char>::empty() + p.last() =~= p.last());
        assert(q.push(Seq::<char>::empty()).update(q.len() as int, p.last()) =~= p);
    }
}

proof fn lemma_extras_facts()
    ensures
        path_extras().no_duplicates(),
        forall|j: int| 0 <= j < path_extras().len() ==> !(#[trigger] path_extras()[j]).contains(':'),
{
    reveal_strlit("/opt/homebrew/bin");
    reveal_strlit("/opt/homebrew/sbin");
    reveal_strlit("/usr/local/bin");
    reveal_strlit("/usr/local/sbin");
    reveal_strlit("/usr/bin");
    reveal_strlit("/bin");
    reveal_strlit("/usr/sbin");
    reveal_strlit("/sbin");
    let x = path_extras();
    assert forall|i: int, j: int| 0 <= i < x.len() && 0 <= j < x.len() && i != j implies x[i] != x[j] by {
        assert(x[i].len() != x[j].len());
    }
    assert forall|j: int| 0 <= j < x.len() implies !(#[trigger] x[j]).contains(':') by {
        if x[j].contains(':') {
            let k = choose|k: int| 0 <= k < x[j].len() && x[j][k] == ':';
            assert(x[j][k] != ':');
        }
    }
}

/// The common tool locations lead the built search path, in their fixed order.
pub proof fn law_extras_lead(current: Seq<char>)
    ensures
        enhanced_entries(current).len() >= path_extras().len(),
        forall|i: int| 0 <= i < path_extras().len() ==> #[trigger] enhanced_entries(current)[i] == path_extras()[i],
{
    lemma_absorb_prefix(path_extras(), split_on(current, ':'));
}

/// Every entry of the current search path is kept, and nothing else is added
/// besides the common tool locations.
pub proof fn law_entries_kept(current: Seq<char>)
    ensures
        forall|x: Seq<char>| #[trigger] enhanced_entries(current).contains(x)
            <==> (path_extras().contains(x) || split_on(current, ':').contains(x)),
{
    lemma_absorb_members(path_extras(), split_on(current, ':'));
}

/// No entry appears twice in the built search path.
pub proof fn law_no_repeated_entries(current: Seq<char>)
    ensures
        enhanced_entries(current).no_duplicates(),
{
    lemma_extras_facts();
    lemma_absorb_no_duplicates(path_extras(), split_on(current, ':'));
}

/// Building the search path from one already built gives it back unchanged.
pub proof fn law_enhanced_idempotent(current: Seq<char>)
    ensures
        enhanced(enhanced(current)) == enhanced(current),
{
    let entries = enhanced_entries(current);
    lemma_extras_facts();
    law_extras_lead(current);
    law_entries_kept(current);
    law_no_repeated_entries(current);
    lemma_split_pieces_free(current, ':');
    assert forall|j: int| 0 <= j < entries.len() implies !(#[trigger] entries[j]).contains(':') by {
        assert(entries.contains(entries[j]));
        if path_extras().contains(entries[j]) {
            let k = choose|k: int| 0 <= k < path_extras().len() && path_extras()[k] == entries[j];
            assert(!path_extras()[k].contains(':'));
        } else {
            let k = choose|k: int| 0 <= k < split_on(current, ':').len() && split_on(current, ':')[k] == entries[j];
            assert(!split_on(current, ':')[k].contains(':'));
        }
    }
    lemma_split_join(entries, ':');
    lemma_absorb_fixed(path_extras(), entries);
}


/// The common tool locations are Homebrew's on Apple silicon, then the ones under
/// `/usr/local`, then the system directories.
pub proof fn law_extra_locations()
    ensures
        path_extras() == seq![
            "/opt/homebrew/bin"@,
            "/opt/homebrew/sbin"@,
            "/usr/local/bin"@,
            "/usr/local/sbin"@,
            "/usr/bin"@,
            "/bin"@,
            "/usr/sbin"@,
            "/sbin"@,
        ],
{
}

} // verus!
