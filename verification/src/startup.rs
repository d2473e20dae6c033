//! Text handling of the launch-at-startup registry entry: the stored value is the
//! executable path, quoted when it contains spaces.
use vstd::prelude::*;

verus! {

/// `path`, wrapped in double quotes when it contains a space.
pub open spec fn quoted_path(path: Seq<char>) -> Seq<char> {
    if path.contains(' ') {
        seq!['"'] + path + seq!['"']
    } else {
        path
    }
}

/// `s` without its leading double quotes.
pub open spec fn strip_leading_quotes(s: Seq<char>) -> Seq<char>
    decreases s.len(),
{
    if s.len() > 0 && s[0] == '"' {
        strip_leading_quotes(s.drop_first())
    } else {
        s
    }
}

/// `s` without its trailing double quotes.
pub open spec fn strip_trailing_quotes(s: Seq<char>) -> Seq<char>
    decreases s.len(),
{
    if s.len() > 0 && s.last() == '"' {
        strip_trailing_quotes(s.drop_last())
    } else {
        s
    }
}

/// `s` with double quotes trimmed from both ends.
pub open spec fn trim_quotes(s: Seq<char>) -> Seq<char> {
    strip_trailing_quotes(strip_leading_quotes(s))
}

/// The path as stored in the startup entry: quoted if it contains a space.
pub fn quote_exe_path(path: &str) -> (r: String)
    ensures
        r@ == quoted_path(path@),
{
    let n = path.unicode_len();
    let mut i: usize = 0;
    let mut has_space = false;
    while i < n
        invariant
            n == path@.len(),
            i <= n,
            has_space == exists|j: int| 0 <= j < i && path@[j] == ' ',
        decreases n - i,
    {
        if path.get_char(i) == ' ' {
            has_space = true;
        }
        i += 1;
    }
    if has_space {
        let mut s = String::from_str("\"");
        s.append(path);
        s.append("\"");
        proof {
            reveal_strlit("\"");
            assert(s@ =~= seq!['"'] + path@ + seq!['"']);
        }
        s
    } else {
        String::from_str(path)
    }
}

/// Bounds `(a, b)` of `s@` with the quotes trimmed from both ends.
fn trimmed_bounds(s: &str) -> (r: (usize, usize))
    ensures
        r.0 <= r.1 <= s@.len(),
        trim_quotes(s@) == s@.subrange(r.0 as int, r.1 as int),
{
    let n = s.unicode_len();
    let mut a: usize = 0;
    assert(s@.subrange(0, n as int) =~= s@);
    while a < n && s.get_char(a) == '"'
        invariant
            n == s@.len(),
            a <= n,
            strip_leading_quotes(s@) == strip_leading_quotes(s@.subrange(a as int, n as int)),
        decreases n - a,
    {
        assert(s@.subrange(a as int, n as int).drop_first() =~= s@.subrange(a + 1, n as int));
        a += 1;
    }
    let ghost lead = s@.subrange(a as int, n as int);
    assert(strip_leading_quotes(lead) == lead);
    let mut b: usize = n;
    while b > a && s.get_char(b - 1) == '"'
        invariant
            n == s@.len(),
            a <= b <= n,
            strip_trailing_quotes(lead) == strip_trailing_quotes(s@.subrange(a as int, b as int)),
        decreases b - a,
    {
        assert(s@.subrange(a as int, b as int).drop_last() =~= s@.subrange(a as int, b - 1));
        b -= 1;
    }
    assert(strip_trailing_quotes(s@.subrange(a as int, b as int)) == s@.subrange(a as int, b as int));
    (a, b)
}

/// Appending a character after a sequence that holds some non-quote character does not
/// change which leading quotes are stripped.
proof fn lemma_strip_leading_push(s: Seq<char>, c: char, k: int)
    requires
        0 <= k < s.len(),
        s[k] != '"',
    ensures
        strip_leading_quotes(s.push(c)) == strip_leading_quotes(s).push(c),
    decreases s.len(),
{
    if s[0] == '"' {
        assert(s.push(c).drop_first() =~= s.drop_first().push(c));
        lemma_strip_leading_push(s.drop_first(), c, k - 1);
    }
}

/// The path written to the startup entry is recognised as the same executable: quoting
/// adds nothing that the comparison does not strip.
pub proof fn lemma_quoted_path_matches(path: Seq<char>)
    ensures
        trim_quotes(quoted_path(path)) == trim_quotes(path),
{
    if path.contains(' ') {
        let k = choose|k: int| 0 <= k < path.len() && path[k] == ' ';
        let q = seq!['"'] + path + seq!['"'];
        assert(q[0] == '"');
        assert(q.drop_first() =~= path.push('"'));
        lemma_strip_leading_push(path, '"', k);
        let l = strip_leading_quotes(path);
        assert(l.push('"').last() == '"');
        assert(l.push('"').drop_last() =~= l);
    }
}

/// Whether a stored startup entry names the current executable, ignoring the
/// surrounding quotes on either side.
pub fn startup_entry_matches(stored: &str, current: &str) -> (r: bool)
    ensures
        r == (trim_quotes(stored@) == trim_quotes(current@)),
{
    let (sa, sb) = trimmed_bounds(stored);
    let (ca, cb) = trimmed_bounds(current);
    let ghost ts = stored@.subrange(sa as int, sb as int);
    let ghost tc = current@.subrange(ca as int, cb as int);
    if sb - sa != cb - ca {
        assert(ts.len() != tc.len());
        return false;
    }
    let len = sb - sa;
    let mut k: usize = 0;
    while k < len
        invariant
            len == sb - sa,
            len == cb - ca,
            sa <= sb <= stored@.len(),
            ca <= cb <= current@.len(),
            ts == stored@.subrange(sa as int, sb as int),
            ts == trim_quotes(stored@),
            tc == trim_quotes(current@),
            tc == current@.subrange(ca as int, cb as int),
            k <= len,
            forall|j: int| 0 <= j < k ==> ts[j] == tc[j],
        decreases len - k,
    {
        if stored.get_char(sa + k) != current.get_char(ca + k) {
            assert(ts[k as int] != tc[k as int]);
            return false;
        }
        k += 1;
    }
    assert(ts =~= tc);
    true
}

} // verus!
