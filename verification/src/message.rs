//! The message of each new commit: a fixed prefix, the commit's index within
//! the run, and the wall-clock time in milliseconds at which it was made.

use crate::decimal::{append_decimal, decimal, lemma_decimal_injective, lemma_decimal_shape};
use crate::failure::{Failure, FailureKind, FailureView};
use std::time::{Duration, SystemTime, SystemTimeError};
use vstd::prelude::*;

verus! {

/// Trusted: `std::time::SystemTime`, a reading of the system clock. Nothing is
/// known of what a value holds.
#[verifier::external_type_specification]
#[verifier::external_body]
pub struct ExSystemTime(SystemTime);

/// Trusted: `std::time::SystemTimeError`, the error of a clock reading that
/// lies before the instant it is measured from.
#[verifier::external_type_specification]
#[verifier::external_body]
pub struct ExSystemTimeError(SystemTimeError);

/// Trusted: `SystemTime::now` reads the system clock. Nothing is claimed of
/// the reading.
pub assume_specification[ SystemTime::now ]() -> (now: SystemTime)
;

/// Trusted: `Duration::as_millis` gives the whole milliseconds of a duration.
/// Nothing is claimed of the number.
pub assume_specification[ Duration::as_millis ](d: &Duration) -> (millis: u128)
;

/// Trusted: `SystemTime::duration_since`, measured from `UNIX_EPOCH`. It gives
/// the time elapsed from the epoch to `t`, or an error where `t` lies before
/// the epoch. Nothing is claimed of either.
#[verifier::external_body]
fn since_epoch(t: &SystemTime) -> (elapsed: Result<Duration, SystemTimeError>) {
    t.duration_since(std::time::UNIX_EPOCH)
}

/// The words that every message starts with.
pub open spec fn message_prefix() -> Seq<char> {
    "gix-commit-test-"@
}

/// The message of the commit with index `index`, made at `millis`
/// milliseconds after the epoch: the prefix, the index, a hyphen, the time.
pub open spec fn message_text(index: nat, millis: nat) -> Seq<char> {
    message_prefix() + decimal(index) + seq!['-'] + decimal(millis)
}

/// The message for `index` at a given time.
pub fn format_message(index: usize, millis: u128) -> (text: String)
    ensures
        text@ == message_text(index as nat, millis as nat),
{
    let mut text = "gix-commit-test-".to_owned();
    append_decimal(&mut text, index as u128);
    text.push('-');
    append_decimal(&mut text, millis);
    text
}

/// The cause that is given where the clock cannot be read.
pub open spec fn clock_cause() -> Seq<char> {
    "system time is before the epoch"@
}

/// The failure of a run whose clock cannot be read.
pub open spec fn clock_failure_view() -> FailureView {
    FailureView { kind: FailureKind::Clock, cause: clock_cause() }
}

/// The failure of a run whose clock cannot be read.
pub fn clock_failure() -> (f: Failure)
    ensures
        f@ == clock_failure_view(),
{
    Failure::new(FailureKind::Clock, "system time is before the epoch".to_owned())
}

/// The milliseconds since the epoch, as the system clock gives them now;
/// `None` where the clock reads a time before the epoch. Two readings need
/// not agree, so nothing is said of the number.
pub fn now_millis() -> (reading: Option<u128>) {
    let now = SystemTime::now();
    match since_epoch(&now) {
        Ok(elapsed) => Some(elapsed.as_millis()),
        Err(_) => None,
    }
}

/// The message for `index` at the present time. It fails only where the
/// clock cannot be read.
pub fn make_message(index: usize) -> (r: Result<String, Failure>)
    ensures
        match r {
            Ok(text) => exists|millis: nat|
                millis <= u128::MAX && text@ == #[trigger] message_text(index as nat, millis),
            Err(f) => f@ == clock_failure_view(),
        },
{
    match now_millis() {
        Some(millis) => {
            let text = format_message(index, millis);
            assert(text@ == message_text(index as nat, millis as nat));
            Ok(text)
        },
        None => Err(clock_failure()),
    }
}

/// A message tells which index and which time it was made from: two messages
/// are equal only where both agree. So the messages of one run differ from
/// one another whatever the clock says, since their indices differ.
pub proof fn lemma_message_injective(i1: nat, m1: nat, i2: nat, m2: nat)
    requires
        message_text(i1, m1) == message_text(i2, m2),
    ensures
        i1 == i2,
        m1 == m2,
{
    let p = message_prefix();
    let a = decimal(i1);
    let b = decimal(i2);
    let c = decimal(m1);
    let d = decimal(m2);
    let x = a + seq!['-'] + c;
    let y = b + seq!['-'] + d;
    lemma_decimal_shape(i1);
    lemma_decimal_shape(i2);
    lemma_decimal_shape(m1);
    lemma_decimal_shape(m2);
    assert(message_text(i1, m1) =~= p + x);
    assert(message_text(i2, m2) =~= p + y);
    assert(x.len() == y.len()) by {
        assert((p + x).len() == (p + y).len());
    }
    assert forall|k: int| 0 <= k < x.len() implies x[k] == y[k] by {
        assert((p + x)[p.len() + k] == x[k]);
        assert((p + y)[p.len() + k] == y[k]);
    }
    if a.len() < b.len() {
        assert(x[a.len() as int] == '-');
        assert(y[a.len() as int] == b[a.len() as int]);
    }
    if b.len() < a.len() {
        assert(y[b.len() as int] == '-');
        assert(x[b.len() as int] == a[b.len() as int]);
    }
    assert(a =~= b) by {
        assert forall|k: int| 0 <= k < a.len() implies a[k] == b[k] by {
            assert(x[k] == a[k]);
            assert(y[k] == b[k]);
        }
    }
    assert(c =~= d) by {
        assert forall|k: int| 0 <= k < c.len() implies c[k] == d[k] by {
            assert(x[a.len() + 1 + k] == c[k]);
            assert(y[b.len() + 1 + k] == d[k]);
        }
    }
    lemma_decimal_injective(i1, i2);
    lemma_decimal_injective(m1, m2);
}

/// Messages made for different indices differ, at whatever times they were
/// made.
pub proof fn lemma_messages_distinct(i1: nat, m1: nat, i2: nat, m2: nat)
    requires
        i1 != i2,
    ensures
        message_text(i1, m1) != message_text(i2, m2),
{
    if message_text(i1, m1) == message_text(i2, m2) {
        lemma_message_injective(i1, m1, i2, m2);
    }
}

} // verus!
