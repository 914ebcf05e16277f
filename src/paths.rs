use vstd::prelude::*;

verus! {

/// The path of the entry named `id` under the directory `root`.
pub open spec fn entry_path_of(root: Seq<char>, id: Seq<char>) -> Seq<char> {
    root + seq!['/'] + id
}

/// The decimal digit for `d`, for `d` in `0..10`.
pub open spec fn digit_char(d: int) -> char {
    if d == 0 { '0' }
    else if d == 1 { '1' }
    else if d == 2 { '2' }
    else if d == 3 { '3' }
    else if d == 4 { '4' }
    else if d == 5 { '5' }
    else if d == 6 { '6' }
    else if d == 7 { '7' }
    else if d == 8 { '8' }
    else { '9' }
}

pub open spec fn is_digit(c: char) -> bool {
    '0' <= c && c <= '9'
}

/// `n` written in decimal, without leading zeros.
pub open spec fn decimal(n: nat) -> Seq<char>
    decreases n,
{
    if n < 10 {
        seq![digit_char(n as int)]
    } else {
        decimal(n / 10).push(digit_char((n % 10) as int))
    }
}

/// The name under which the write numbered `nonce` prepares the entry `id`:
/// `.part-<nonce>-<id>`. It begins with `.`, so no identifier names it.
pub open spec fn temp_name_of(id: Seq<char>, nonce: nat) -> Seq<char> {
    seq!['.', 'p', 'a', 'r', 't', '-'] + decimal(nonce) + seq!['-'] + id
}

/// The path under `root` where the write numbered `nonce` prepares the entry `id`.
pub open spec fn temp_path_of(root: Seq<char>, id: Seq<char>, nonce: nat) -> Seq<char> {
    root + seq!['/'] + temp_name_of(id, nonce)
}

pub proof fn lemma_decimal_shape(n: nat)
    ensures
        decimal(n).len() >= 1,
        n >= 10 ==> decimal(n).len() >= 2,
        forall|i: int| 0 <= i < decimal(n).len() ==> is_digit(#[trigger] decimal(n)[i]),
    decreases n,
{
    if n >= 10 {
        lemma_decimal_shape(n / 10);
    }
}

/// Distinct numbers are written differently.
pub proof fn lemma_decimal_injective(a: nat, b: nat)
    requires
        decimal(a) == decimal(b),
    ensures
        a == b,
    decreases a,
{
    lemma_decimal_shape(a);
    lemma_decimal_shape(b);
    if a >= 10 && b >= 10 {
        let da = decimal(a);
        let db = decimal(b);
        assert(da.drop_last() =~= decimal(a / 10));
        assert(db.drop_last() =~= decimal(b / 10));
        assert(da.last() == digit_char((a % 10) as int));
        assert(db.last() == digit_char((b % 10) as int));
        lemma_decimal_injective(a / 10, b / 10);
    } else if a < 10 && b < 10 {
        assert(decimal(a)[0] == digit_char(a as int));
        assert(decimal(b)[0] == digit_char(b as int));
    }
}

/// Paths under one root with the same prefix differ exactly when their names differ.
pub proof fn lemma_join_injective(root: Seq<char>, x: Seq<char>, y: Seq<char>)
    requires
        root + seq!['/'] + x == root + seq!['/'] + y,
    ensures
        x == y,
{
    let p = root + seq!['/'] + x;
    let q = root + seq!['/'] + y;
    let k = root.len() + 1;
    assert(p.subrange(k as int, p.len() as int) =~= x);
    assert(q.subrange(k as int, q.len() as int) =~= y);
}

/// A temporary name determines the write number and the identifier.
pub proof fn lemma_temp_name_injective(a: Seq<char>, m: nat, b: Seq<char>, n: nat)
    requires
        temp_name_of(a, m) == temp_name_of(b, n),
    ensures
        a == b,
        m == n,
{
    let da = decimal(m);
    let db = decimal(n);
    let la = da.len() as int;
    let lb = db.len() as int;
    let s = temp_name_of(a, m);
    let t = temp_name_of(b, n);
    lemma_decimal_shape(m);
    lemma_decimal_shape(n);
    if da.len() < db.len() {
        assert(s[6 + la] == '-');
        assert(t[6 + la] == db[la]);
        assert(false);
    } else if db.len() < da.len() {
        assert(t[6 + lb] == '-');
        assert(s[6 + lb] == da[lb]);
        assert(false);
    } else {
        assert(s.subrange(6, 6 + la) =~= da);
        assert(t.subrange(6, 6 + lb) =~= db);
        lemma_decimal_injective(m, n);
        assert(s.subrange(7 + la, s.len() as int) =~= a);
        assert(t.subrange(7 + lb, t.len() as int) =~= b);
    }
}

/// Builds the path of the entry `id` under `root`.
pub fn entry_path(root: &str, id: &str) -> (r: String)
    ensures
        r@ == entry_path_of(root@, id@),
{
    let mut p = String::from_str(root);
    p.append("/");
    p.append(id);
    proof {
        reveal_strlit("/");
    }
    p
}

fn digit_str(d: u64) -> (r: &'static str)
    requires
        d < 10,
    ensures
        r@ == seq![digit_char(d as int)],
{
    let digits = "0123456789";
    proof {
        reveal_strlit("0123456789");
    }
    let r = digits.substring_ascii(d as usize, d as usize + 1);
    assert(r@ =~= seq![digit_char(d as int)]);
    r
}

fn append_decimal(out: &mut String, n: u64)
    ensures
        final(out)@ == old(out)@ + decimal(n as nat),
    decreases n,
{
    if n >= 10 {
        append_decimal(out, n / 10);
    }
    out.append(digit_str(n % 10));
    assert(final(out)@ =~= old(out)@ + decimal(n as nat));
}

/// Builds the path where the write numbered `nonce` prepares the entry `id`.
pub fn temp_path(root: &str, id: &str, nonce: u64) -> (r: String)
    ensures
        r@ == temp_path_of(root@, id@, nonce as nat),
{
    let mut p = String::from_str(root);
    p.append("/.part-");
    append_decimal(&mut p, nonce);
    p.append("-");
    p.append(id);
    proof {
        reveal_strlit("/.part-");
        reveal_strlit("-");
    }
    assert(p@ =~= temp_path_of(root@, id@, nonce as nat));
    p
}

} // verus!
