//! The content-free mailbox state token.
//!
//! With CONDSTORE the token is `UIDVALIDITY:HIGHESTMODSEQ` (advancing on any
//! change); otherwise `UIDVALIDITY:UIDNEXT` (advancing on new mail only).
//! Each number is written in decimal.

use vstd::prelude::*;
use vstd::string::*;

verus! {

/// What an EXAMINE reported that the state token is folded from.
#[derive(Clone, Copy, Debug, PartialEq, Eq, Structural)]
pub struct MailboxStatus {
    /// UIDVALIDITY, if reported.
    pub uid_validity: Option<u32>,
    /// UIDNEXT, if reported.
    pub uid_next: Option<u32>,
    /// HIGHESTMODSEQ, if reported (CONDSTORE).
    pub highest_mod_seq: Option<u64>,
}

/// The decimal digit character for `d` (0 to 9).
pub open spec fn digit_char(d: nat) -> char {
    if d == 0 {
        '0'
    } else if d == 1 {
        '1'
    } else if d == 2 {
        '2'
    } else if d == 3 {
        '3'
    } else if d == 4 {
        '4'
    } else if d == 5 {
        '5'
    } else if d == 6 {
        '6'
    } else if d == 7 {
        '7'
    } else if d == 8 {
        '8'
    } else {
        '9'
    }
}

/// Whether `c` is a decimal digit.
pub open spec fn is_digit(c: char) -> bool {
    '0' <= c && c <= '9'
}

/// `n` written in decimal, most significant digit first, without leading
/// zeros (zero is `"0"`).
pub open spec fn decimal(n: nat) -> Seq<char>
    decreases n,
{
    if n < 10 {
        seq![digit_char(n)]
    } else {
        decimal(n / 10).push(digit_char(n % 10))
    }
}

/// The state token of a UIDVALIDITY and a sequence number.
pub open spec fn spec_state_token(validity: nat, seq: nat) -> Seq<char> {
    decimal(validity) + seq![':'] + decimal(seq)
}

/// The UIDVALIDITY a status contributes (0 when absent).
pub open spec fn token_validity(status: MailboxStatus) -> nat {
    match status.uid_validity {
        Some(v) => v as nat,
        None => 0,
    }
}

/// The UIDNEXT a status contributes (0 when absent).
pub open spec fn token_uid_next(status: MailboxStatus) -> nat {
    match status.uid_next {
        Some(u) => u as nat,
        None => 0,
    }
}

/// The sequence number a status contributes: with CONDSTORE the
/// HIGHESTMODSEQ, falling back to UIDNEXT; otherwise UIDNEXT (0 when absent).
pub open spec fn token_seq(status: MailboxStatus, condstore: bool) -> nat {
    if condstore {
        match status.highest_mod_seq {
            Some(m) => m as nat,
            None => token_uid_next(status),
        }
    } else {
        token_uid_next(status)
    }
}

/// The state token of an EXAMINE result.
pub open spec fn status_token(status: MailboxStatus, condstore: bool) -> Seq<char> {
    spec_state_token(token_validity(status), token_seq(status, condstore))
}

proof fn lemma_digit_char(d: nat)
    requires
        d < 10,
    ensures
        is_digit(digit_char(d)),
        forall|e: nat| e < 10 && digit_char(e) == digit_char(d) ==> e == d,
{
}

/// Every character of a decimal numeral is a digit, and a numeral has one
/// character exactly when the number is below ten.
pub proof fn lemma_decimal_shape(n: nat)
    ensures
        decimal(n).len() >= 1,
        (decimal(n).len() == 1) == (n < 10),
        forall|i: int| 0 <= i < decimal(n).len() ==> is_digit(#[trigger] decimal(n)[i]),
    decreases n,
{
    if n < 10 {
        lemma_digit_char(n);
    } else {
        lemma_decimal_shape(n / 10);
        lemma_digit_char(n % 10);
        assert forall|i: int| 0 <= i < decimal(n).len() implies is_digit(#[trigger] decimal(n)[i]) by {
            if i < decimal(n / 10).len() {
                assert(decimal(n)[i] == decimal(n / 10)[i]);
            }
        }
    }
}

/// Distinct numbers have distinct decimal numerals.
pub proof fn lemma_decimal_injective(a: nat, b: nat)
    requires
        decimal(a) == decimal(b),
    ensures
        a == b,
    decreases a,
{
    lemma_decimal_shape(a);
    lemma_decimal_shape(b);
    if a < 10 {
        assert(b < 10);
        lemma_digit_char(a);
        assert(decimal(a)[0] == digit_char(a));
        assert(decimal(b)[0] == digit_char(b));
        assert(digit_char(b) == digit_char(a));
    } else {
        assert(b >= 10);
        let da = decimal(a);
        let db = decimal(b);
        assert(da.last() == digit_char(a % 10));
        assert(db.last() == digit_char(b % 10));
        lemma_digit_char(a % 10);
        assert(da.drop_last() =~= decimal(a / 10));
        assert(db.drop_last() =~= decimal(b / 10));
        lemma_decimal_injective(a / 10, b / 10);
        lemma_digit_char(a % 10);
        assert(digit_char(b % 10) == digit_char(a % 10));
        assert(b % 10 == a % 10);
        assert(a == 10 * (a / 10) + a % 10);
        assert(b == 10 * (b / 10) + b % 10);
    }
}

/// Distinct (UIDVALIDITY, sequence) pairs give distinct state tokens.
pub proof fn lemma_state_token_injective(v1: nat, s1: nat, v2: nat, s2: nat)
    requires
        spec_state_token(v1, s1) == spec_state_token(v2, s2),
    ensures
        v1 == v2,
        s1 == s2,
{
    let t = spec_state_token(v1, s1);
    let l1 = decimal(v1).len() as int;
    let l2 = decimal(v2).len() as int;
    lemma_decimal_shape(v1);
    lemma_decimal_shape(v2);
    lemma_decimal_shape(s1);
    lemma_decimal_shape(s2);
    assert(t[l1] == ':');
    assert(spec_state_token(v2, s2)[l2] == ':');
    if l1 < l2 {
        assert(spec_state_token(v2, s2)[l1] == decimal(v2)[l1]);
        assert(is_digit(decimal(v2)[l1]));
        assert(false);
    } else if l2 < l1 {
        assert(t[l2] == decimal(v1)[l2]);
        assert(is_digit(decimal(v1)[l2]));
        assert(false);
    }
    assert(t.subrange(0, l1) =~= decimal(v1));
    assert(spec_state_token(v2, s2).subrange(0, l2) =~= decimal(v2));
    lemma_decimal_injective(v1, v2);
    assert(t.subrange(l1 + 1, t.len() as int) =~= decimal(s1));
    assert(spec_state_token(v2, s2).subrange(l2 + 1, t.len() as int) =~= decimal(s2));
    lemma_decimal_injective(s1, s2);
}

/// A freshly examined status differs in token from the last one exactly when
/// its UIDVALIDITY or its tracked sequence number moved: the watch rings on
/// every state advance and on nothing else.
pub proof fn law_token_moves_iff_state_moves(prev: MailboxStatus, next: MailboxStatus, condstore: bool)
    ensures
        (status_token(prev, condstore) != status_token(next, condstore)) <==> (token_validity(prev)
            != token_validity(next) || token_seq(prev, condstore) != token_seq(next, condstore)),
{
    if status_token(prev, condstore) == status_token(next, condstore) {
        lemma_state_token_injective(
            token_validity(prev),
            token_seq(prev, condstore),
            token_validity(next),
            token_seq(next, condstore),
        );
    }
}

/// On a CONDSTORE server a flag change (HIGHESTMODSEQ moves, UIDVALIDITY and
/// UIDNEXT stay) changes the token; without CONDSTORE the same change leaves
/// the token as it was (new mail only).
pub proof fn law_flag_change(prev: MailboxStatus, next: MailboxStatus)
    requires
        prev.uid_validity == next.uid_validity,
        prev.uid_next == next.uid_next,
        prev.highest_mod_seq is Some,
        next.highest_mod_seq is Some,
        prev.highest_mod_seq != next.highest_mod_seq,
    ensures
        status_token(prev, true) != status_token(next, true),
        status_token(prev, false) == status_token(next, false),
{
    law_token_moves_iff_state_moves(prev, next, true);
}

/// New mail (UIDNEXT moves) changes the token of a server without CONDSTORE,
/// and of a CONDSTORE server that reports no HIGHESTMODSEQ.
pub proof fn law_new_mail(prev: MailboxStatus, next: MailboxStatus, condstore: bool)
    requires
        prev.uid_validity == next.uid_validity,
        prev.uid_next is Some,
        next.uid_next is Some,
        prev.uid_next != next.uid_next,
        condstore ==> prev.highest_mod_seq is None && next.highest_mod_seq is None,
    ensures
        status_token(prev, condstore) != status_token(next, condstore),
{
    law_token_moves_iff_state_moves(prev, next, condstore);
}

/// The one-character string of a decimal digit.
fn digit_str(d: u64) -> (text: &'static str)
    requires
        d < 10,
    ensures
        text@ == seq![digit_char(d as nat)],
{
    proof {
        reveal_strlit("0");
        reveal_strlit("1");
        reveal_strlit("2");
        reveal_strlit("3");
        reveal_strlit("4");
        reveal_strlit("5");
        reveal_strlit("6");
        reveal_strlit("7");
        reveal_strlit("8");
        reveal_strlit("9");
    }
    if d == 0 {
        "0"
    } else if d == 1 {
        "1"
    } else if d == 2 {
        "2"
    } else if d == 3 {
        "3"
    } else if d == 4 {
        "4"
    } else if d == 5 {
        "5"
    } else if d == 6 {
        "6"
    } else if d == 7 {
        "7"
    } else if d == 8 {
        "8"
    } else {
        "9"
    }
}

/// Appends `n` in decimal to `out`.
fn append_decimal(out: &mut String, n: u64)
    ensures
        final(out)@ == old(out)@ + decimal(n as nat),
    decreases n,
{
    if n >= 10 {
        append_decimal(out, n / 10);
    }
    out.append(digit_str(n % 10));
    proof {
        if n >= 10 {
            assert(old(out)@ + decimal(n as nat) =~= old(out)@ + decimal((n / 10) as nat) + seq![digit_char((n % 10) as nat)]);
        } else {
            assert(old(out)@ + decimal(n as nat) =~= old(out)@ + seq![digit_char(n as nat)]);
        }
    }
}

/// Folds an EXAMINE result into the opaque state token: with `condstore`
/// `UIDVALIDITY:HIGHESTMODSEQ` (falling back to UIDNEXT), otherwise
/// `UIDVALIDITY:UIDNEXT`, each absent number read as 0.
pub fn state_token(status: &MailboxStatus, condstore: bool) -> (token: String)
    ensures
        token@ == status_token(*status, condstore),
{
    let validity: u64 = match status.uid_validity {
        Some(v) => v as u64,
        None => 0,
    };
    let uid_next: u64 = match status.uid_next {
        Some(u) => u as u64,
        None => 0,
    };
    let seq: u64 = if condstore {
        match status.highest_mod_seq {
            Some(m) => m,
            None => uid_next,
        }
    } else {
        uid_next
    };
    let mut token = String::new();
    append_decimal(&mut token, validity);
    proof {
        reveal_strlit(":");
    }
    token.append(":");
    append_decimal(&mut token, seq);
    proof {
        assert(token@ =~= status_token(*status, condstore));
    }
    token
}

} // verus!
