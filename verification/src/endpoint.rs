//! Naming of the rendezvous endpoint.
//!
//! The endpoint is a filesystem-local address of the form
//! `<root>.<extension>.<identity>`, where the identity is the supervisor's
//! process id written in decimal. Worker and client compute it separately
//! from the same two values, so the name must depend on nothing else.

use vstd::prelude::*;
use vstd::string::StringExecFns;

verus! {

/// The root of every rendezvous endpoint.
pub const RENDEZVOUS_ROOT: &'static str = "/tmp/.s.pgrag";

/// The name of the extension whose worker embeds text.
pub const EMBEDDING_EXTENSION: &'static str = "rag_bge_small_en_v15";

/// The name of the extension whose worker reranks passages.
pub const RERANKING_EXTENSION: &'static str = "rag_jina_reranker_v1_tiny_en";

/// The character that writes the digit `d`, for `d` below ten.
pub open spec fn digit_char(d: nat) -> char {
    if d == 0 {
        '0'
    } else if d == 1 {
        '1'
    } else if d == 2 {
        '2'
    } else if d == 3 {
        '3'
    } else if d == 4 {
        '4'
    } else if d == 5 {
        '5'
    } else if d == 6 {
        '6'
    } else if d == 7 {
        '7'
    } else if d == 8 {
        '8'
    } else {
        '9'
    }
}

/// The decimal numeral of a natural number, without leading zeros.
pub open spec fn decimal_digits(n: nat) -> Seq<char>
    decreases n,
{
    if n < 10 {
        seq![digit_char(n)]
    } else {
        decimal_digits(n / 10).push(digit_char(n % 10))
    }
}

/// The decimal numeral of an integer: a minus sign before the digits of a
/// negative number.
pub open spec fn decimal(i: int) -> Seq<char> {
    if i < 0 {
        seq!['-'] + decimal_digits((-i) as nat)
    } else {
        decimal_digits(i as nat)
    }
}

/// The root of every rendezvous endpoint.
pub open spec fn rendezvous_root() -> Seq<char> {
    RENDEZVOUS_ROOT@
}

/// The endpoint of the worker of extension `ext_name` under the supervisor
/// whose process id is `pid`.
pub open spec fn socket_path_of(ext_name: Seq<char>, pid: int) -> Seq<char> {
    rendezvous_root() + seq!['.'] + ext_name + seq!['.'] + decimal(pid)
}

/// The one-character string of a digit.
fn digit_str(d: u64) -> (s: &'static str)
    requires
        d < 10,
    ensures
        s@ == seq![digit_char(d as nat)],
{
    proof {
        reveal_strlit("0");
        reveal_strlit("1");
        reveal_strlit("2");
        reveal_strlit("3");
        reveal_strlit("4");
        reveal_strlit("5");
        reveal_strlit("6");
        reveal_strlit("7");
        reveal_strlit("8");
        reveal_strlit("9");
    }
    let s = if d == 0 {
        "0"
    } else if d == 1 {
        "1"
    } else if d == 2 {
        "2"
    } else if d == 3 {
        "3"
    } else if d == 4 {
        "4"
    } else if d == 5 {
        "5"
    } else if d == 6 {
        "6"
    } else if d == 7 {
        "7"
    } else if d == 8 {
        "8"
    } else {
        "9"
    };
    assert(s@ =~= seq![digit_char(d as nat)]);
    s
}

/// Appends the decimal numeral of `n` to `out`.
fn push_decimal(out: &mut String, n: u64)
    ensures
        final(out)@ == old(out)@ + decimal_digits(n as nat),
    decreases n,
{
    if n >= 10 {
        push_decimal(out, n / 10);
    }
    let ghost before = out@;
    out.append(digit_str(n % 10));
    proof {
        if n >= 10 {
            assert(out@ =~= old(out)@ + decimal_digits((n / 10) as nat).push(
                digit_char((n % 10) as nat),
            ));
        } else {
            assert(out@ =~= old(out)@ + seq![digit_char(n as nat)]);
        }
    }
}

/// Writes an integer in decimal.
pub fn decimal_string(i: i64) -> (s: String)
    ensures
        s@ == decimal(i as int),
{
    let mut s = String::new();
    if i < 0 {
        proof {
            reveal_strlit("-");
        }
        s.append("-");
        let magnitude: u64 = if i == i64::MIN {
            9223372036854775808u64
        } else {
            (-i) as u64
        };
        push_decimal(&mut s, magnitude);
        assert(s@ =~= seq!['-'] + decimal_digits((-i) as nat));
    } else {
        push_decimal(&mut s, i as u64);
        assert(s@ =~= decimal_digits(i as nat));
    }
    s
}

/// Computes the rendezvous endpoint `<root>.<ext_name>.<pid>`.
///
/// The result depends on the two arguments alone, so the worker and every
/// client that hold the same extension name and supervisor identity arrive
/// at the same address without a handshake.
pub fn socket_path(ext_name: &str, pid: i64) -> (path: String)
    ensures
        path@ == socket_path_of(ext_name@, pid as int),
{
    proof {
        reveal_strlit(".");
    }
    let mut path = String::from_str(RENDEZVOUS_ROOT);
    path.append(".");
    path.append(ext_name);
    path.append(".");
    let number = decimal_string(pid);
    path.append(number.as_str());
    assert(path@ =~= socket_path_of(ext_name@, pid as int));
    path
}


/// Neither the separator nor the minus sign is a digit, and distinct
/// digits are written with distinct characters.
proof fn lemma_digit_char(a: nat, b: nat)
    requires
        a < 10,
        b < 10,
    ensures
        digit_char(a) != '.',
        digit_char(a) != '-',
        digit_char(a) == digit_char(b) ==> a == b,
{
}

/// A numeral is never empty, and has two characters or more from ten on.
proof fn lemma_decimal_digits_len(n: nat)
    ensures
        decimal_digits(n).len() >= 1,
        n >= 10 ==> decimal_digits(n).len() >= 2,
        n < 10 ==> decimal_digits(n).len() == 1,
    decreases n,
{
    if n >= 10 {
        lemma_decimal_digits_len(n / 10);
    }
}

/// Every character of a numeral is a digit.
proof fn lemma_decimal_digits_chars(n: nat, k: int)
    requires
        0 <= k < decimal_digits(n).len(),
    ensures
        decimal_digits(n)[k] != '.',
        decimal_digits(n)[k] != '-',
    decreases n,
{
    if n < 10 {
        lemma_digit_char(n, n);
    } else {
        let front = decimal_digits(n / 10);
        if k < front.len() {
            lemma_decimal_digits_chars(n / 10, k);
        } else {
            lemma_digit_char(n % 10, n % 10);
        }
    }
}

/// Two natural numbers with the same numeral are equal.
pub proof fn lemma_decimal_digits_injective(a: nat, b: nat)
    requires
        decimal_digits(a) == decimal_digits(b),
    ensures
        a == b,
    decreases a,
{
    lemma_decimal_digits_len(a);
    lemma_decimal_digits_len(b);
    if a < 10 {
        assert(decimal_digits(a)[0] == digit_char(a));
        assert(decimal_digits(b)[0] == digit_char(b));
        lemma_digit_char(a, b);
    } else {
        let fa = decimal_digits(a / 10);
        let fb = decimal_digits(b / 10);
        let da = digit_char(a % 10);
        let db = digit_char(b % 10);
        assert(fa.push(da).drop_last() =~= fa);
        assert(fb.push(db).drop_last() =~= fb);
        assert(fa.push(da).last() == da);
        assert(fb.push(db).last() == db);
        lemma_digit_char(a % 10, b % 10);
        lemma_decimal_digits_injective(a / 10, b / 10);
    }
}

/// Two integers with the same numeral are equal.
pub proof fn lemma_decimal_injective(i: int, j: int)
    requires
        decimal(i) == decimal(j),
    ensures
        i == j,
{
    let ni = (if i < 0 { -i } else { i }) as nat;
    let nj = (if j < 0 { -j } else { j }) as nat;
    lemma_decimal_digits_len(ni);
    lemma_decimal_digits_len(nj);
    lemma_decimal_digits_chars(ni, 0);
    lemma_decimal_digits_chars(nj, 0);
    if i < 0 {
        assert(decimal(i)[0] == '-');
        assert(j < 0);
        let d = decimal(i);
        assert(decimal_digits(ni) =~= d.subrange(1, d.len() as int));
        assert(decimal_digits(nj) =~= d.subrange(1, d.len() as int));
        lemma_decimal_digits_injective(ni, nj);
    } else {
        assert(decimal(i)[0] != '-');
        assert(j >= 0) by {
            if j < 0 {
                assert(decimal(j)[0] == '-');
            }
        }
        lemma_decimal_digits_injective(ni, nj);
    }
}

/// No character of an integer's numeral is the separator.
proof fn lemma_decimal_has_no_separator(i: int, k: int)
    requires
        0 <= k < decimal(i).len(),
    ensures
        decimal(i)[k] != '.',
{
    if i < 0 {
        if k > 0 {
            lemma_decimal_digits_chars((-i) as nat, k - 1);
        }
    } else {
        lemma_decimal_digits_chars(i as nat, k);
    }
}

/// An endpoint names exactly one extension and one supervisor: two
/// endpoints are the same address only if both the extension names and the
/// identities agree. A supervisor with a new identity therefore never
/// reaches the endpoint of an earlier one.
pub proof fn lemma_socket_path_injective(ext1: Seq<char>, pid1: int, ext2: Seq<char>, pid2: int)
    requires
        socket_path_of(ext1, pid1) == socket_path_of(ext2, pid2),
    ensures
        ext1 == ext2,
        pid1 == pid2,
{
    let head = rendezvous_root() + seq!['.'];
    let numeral1 = decimal(pid1);
    let numeral2 = decimal(pid2);
    let first = socket_path_of(ext1, pid1);
    let second = socket_path_of(ext2, pid2);
    let total = first.len() as int;
    assert(first.len() == head.len() + ext1.len() + 1 + numeral1.len());
    assert(second.len() == head.len() + ext2.len() + 1 + numeral2.len());
    // The separator before the numeral sits where the other path would have
    // a character of its numeral, unless both numerals have the same length.
    if numeral1.len() < numeral2.len() {
        let at = total - numeral1.len() - 1;
        assert(first[at] == '.');
        assert(second[at] == numeral2[at - (total - numeral2.len())]);
        lemma_decimal_has_no_separator(pid2, at - (total - numeral2.len()));
        assert(false);
    }
    if numeral2.len() < numeral1.len() {
        let at = total - numeral2.len() - 1;
        assert(second[at] == '.');
        assert(first[at] == numeral1[at - (total - numeral1.len())]);
        lemma_decimal_has_no_separator(pid1, at - (total - numeral1.len()));
        assert(false);
    }
    assert(numeral1 =~= first.subrange(total - numeral1.len(), total));
    assert(numeral2 =~= second.subrange(total - numeral2.len(), total));
    assert(ext1 =~= first.subrange(head.len() as int, (head.len() + ext1.len()) as int));
    assert(ext2 =~= second.subrange(head.len() as int, (head.len() + ext2.len()) as int));
    lemma_decimal_injective(pid1, pid2);
}

} // verus!
