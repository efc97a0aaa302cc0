use vstd::prelude::*;

verus! {

/// What one character of a path becomes in a notification: a backslash is doubled,
/// every other character stands for itself.
pub open spec fn escape_char(c: char) -> Seq<char> {
    if c == '\\' {
        seq!['\\', '\\']
    } else {
        seq![c]
    }
}

/// The path as it is embedded in a notification: every backslash doubled.
pub open spec fn escape_spec(s: Seq<char>) -> Seq<char>
    decreases s.len(),
{
    if s.len() == 0 {
        Seq::empty()
    } else {
        escape_char(s[0]) + escape_spec(s.skip(1))
    }
}

/// One stage of decoding on the receiving side: a doubled backslash becomes one.
pub open spec fn unescape_spec(s: Seq<char>) -> Seq<char>
    decreases s.len(),
{
    if s.len() == 0 {
        Seq::empty()
    } else if s.len() >= 2 && s[0] == '\\' && s[1] == '\\' {
        seq!['\\'] + unescape_spec(s.skip(2))
    } else {
        seq![s[0]] + unescape_spec(s.skip(1))
    }
}

/// Escaping distributes over concatenation.
pub proof fn lemma_escape_concat(a: Seq<char>, b: Seq<char>)
    ensures
        escape_spec(a + b) == escape_spec(a) + escape_spec(b),
    decreases a.len(),
{
    if a.len() == 0 {
        assert(a + b =~= b);
        assert(escape_spec(a) + escape_spec(b) =~= escape_spec(b));
    } else {
        assert((a + b).skip(1) =~= a.skip(1) + b);
        lemma_escape_concat(a.skip(1), b);
        assert((a + b)[0] == a[0]);
        assert(escape_spec(a + b) =~= escape_spec(a) + escape_spec(b));
    }
}

/// A path without backslashes is embedded as it is.
pub proof fn lemma_escape_plain(s: Seq<char>)
    requires
        forall|i: int| 0 <= i < s.len() ==> s[i] != '\\',
    ensures
        escape_spec(s) == s,
    decreases s.len(),
{
    if s.len() == 0 {
        assert(escape_spec(s) =~= s);
    } else {
        lemma_escape_plain(s.skip(1));
        assert(escape_spec(s) =~= s);
    }
}

/// One stage of decoding undoes one stage of escaping, for every path.
pub proof fn lemma_unescape_escape(s: Seq<char>)
    ensures
        unescape_spec(escape_spec(s)) == s,
    decreases s.len(),
{
    if s.len() == 0 {
        assert(escape_spec(s) =~= Seq::<char>::empty());
        assert(unescape_spec(Seq::<char>::empty()) =~= s);
    } else {
        let e = escape_spec(s);
        let rest = escape_spec(s.skip(1));
        lemma_unescape_escape(s.skip(1));
        if s[0] == '\\' {
            assert(e =~= seq!['\\', '\\'] + rest);
            assert(e.skip(2) =~= rest);
        } else {
            assert(e =~= seq![s[0]] + rest);
            assert(e.skip(1) =~= rest);
        }
        assert(unescape_spec(e) =~= s);
    }
}

/// A path escaped here and escaped once more when the notification is serialized
/// comes back unchanged after the receiver's two stages of decoding.
pub proof fn lemma_two_stage_decode(s: Seq<char>)
    ensures
        unescape_spec(unescape_spec(escape_spec(escape_spec(s)))) == s,
{
    lemma_unescape_escape(escape_spec(s));
    lemma_unescape_escape(s);
}

/// Doubles every backslash of `path`, so that a receiver that decodes the
/// notification twice recovers the literal path.
pub fn escape_backslashes(path: &str) -> (r: String)
    ensures
        r@ == escape_spec(path@),
{
    let n = path.unicode_len();
    let mut out = String::new();
    let mut i: usize = 0;
    while i < n
        invariant
            n == path@.len(),
            i <= n,
            out@ == escape_spec(path@.take(i as int)),
        decreases n - i,
    {
        let c = path.get_char(i);
        proof {
            assert(path@.take(i + 1) =~= path@.take(i as int) + seq![c]);
            lemma_escape_concat(path@.take(i as int), seq![c]);
            assert(seq![c].skip(1) =~= Seq::<char>::empty());
            assert(escape_spec(Seq::<char>::empty()) =~= Seq::<char>::empty());
            assert(escape_spec(seq![c]) =~= escape_char(c) + escape_spec(seq![c].skip(1)));
            assert(escape_spec(seq![c]) =~= escape_char(c));
        }
        if c == '\\' {
            out.append("\\\\");
            proof {
                reveal_strlit("\\\\");
            }
        } else {
            let piece = path.substring_char(i, i + 1);
            out.append(piece);
            proof {
                assert(piece@ =~= seq![c]);
            }
        }
        i = i + 1;
    }
    proof {
        assert(path@.take(n as int) =~= path@);
    }
    out
}

} // verus!
