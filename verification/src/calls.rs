//! Calls: placing one, sending DTMF digits on it, and hanging up.
use crate::account::{lemma_sip_uri_nul, make_sip_uri, sip_uri};
use crate::engine::{
    ops_view, settle, settled, DtmfDuration, DtmfMethod, DtmfRequest, DtmfRequestView, EngineOp,
    EngineOpView, Step, StepView, CURRENT_CALL, DEFAULT_ACCOUNT,
};
use crate::error::{ErrorKind, TelephonyError, TelephonyErrorView};
use crate::marshal::{has_nul, make_pj_str_t, marshalled};
use vstd::prelude::*;
use vstd::string::StringExecFns;
use vstd::utf8::{encode_utf8, is_ascii_chars, is_ascii_chars_encode_utf8};

verus! {

/// The character of a decimal digit.
pub open spec fn digit_char(d: nat) -> char {
    if d == 0 {
        '0'
    } else if d == 1 {
        '1'
    } else if d == 2 {
        '2'
    } else if d == 3 {
        '3'
    } else if d == 4 {
        '4'
    } else if d == 5 {
        '5'
    } else if d == 6 {
        '6'
    } else if d == 7 {
        '7'
    } else if d == 8 {
        '8'
    } else {
        '9'
    }
}

/// The decimal numeral of a number, without leading zeros.
pub open spec fn decimal(n: nat) -> Seq<char>
    decreases n,
{
    if n < 10 {
        seq![digit_char(n)]
    } else {
        decimal(n / 10).push(digit_char(n % 10))
    }
}

/// A decimal numeral consists of the characters `0` to `9`.
pub proof fn lemma_decimal_digits(n: nat)
    ensures
        decimal(n).len() >= 1,
        forall|i: int| 0 <= i < decimal(n).len() ==> '0' <= #[trigger] decimal(n)[i] <= '9',
        is_ascii_chars(decimal(n)),
        !has_nul(decimal(n)),
    decreases n,
{
    if n >= 10 {
        lemma_decimal_digits(n / 10);
    }
}

/// The numeral of a single digit is one character, and it marshals into the
/// ASCII code of that character and the terminator.
pub proof fn lemma_single_digit(digit: nat)
    requires
        digit <= 9,
    ensures
        decimal(digit) == seq![digit_char(digit)],
        marshalled(decimal(digit)).slen == 1,
        marshalled(decimal(digit)).buffer == seq![(48 + digit) as u8, 0u8],
{
    let text = decimal(digit);
    lemma_decimal_digits(digit);
    is_ascii_chars_encode_utf8(text);
    assert(encode_utf8(text)[0] == text[0] as u8);
    assert(marshalled(text).buffer =~= seq![(48 + digit) as u8, 0u8]);
}

fn digit_str(d: u32) -> (s: &'static str)
    requires
        d < 10,
    ensures
        s@ == seq![digit_char(d as nat)],
{
    proof {
        reveal_strlit("0");
        reveal_strlit("1");
        reveal_strlit("2");
        reveal_strlit("3");
        reveal_strlit("4");
        reveal_strlit("5");
        reveal_strlit("6");
        reveal_strlit("7");
        reveal_strlit("8");
        reveal_strlit("9");
    }
    let s = if d == 0 {
        "0"
    } else if d == 1 {
        "1"
    } else if d == 2 {
        "2"
    } else if d == 3 {
        "3"
    } else if d == 4 {
        "4"
    } else if d == 5 {
        "5"
    } else if d == 6 {
        "6"
    } else if d == 7 {
        "7"
    } else if d == 8 {
        "8"
    } else {
        "9"
    };
    assert(s@ =~= seq![digit_char(d as nat)]);
    s
}

/// Writes a number as its decimal numeral.
pub fn decimal_string(n: u32) -> (s: String)
    ensures
        s@ == decimal(n as nat),
    decreases n,
{
    if n < 10 {
        digit_str(n).to_owned()
    } else {
        let mut s = decimal_string(n / 10);
        s.append(digit_str(n % 10));
        assert(s@ =~= decimal(n as nat));
        s
    }
}

/// The error of a call whose target cannot be marshalled.
pub open spec fn call_target_failure() -> TelephonyErrorView {
    TelephonyErrorView {
        kind: ErrorKind::CallCreationError,
        detail: "Phone number or Domain supplied could not be represented as a C-String"@,
    }
}

/// The error of a call that the engine refused.
pub open spec fn call_failure() -> TelephonyErrorView {
    TelephonyErrorView { kind: ErrorKind::CallCreationError, detail: "Could not place Call"@ }
}

/// The error of DTMF digits that the engine refused.
pub open spec fn dtmf_failure() -> TelephonyErrorView {
    TelephonyErrorView { kind: ErrorKind::DTMFError, detail: "Cannot Send DTMF Tone"@ }
}

/// What `make_call` does. A null byte in the number or the domain ends it
/// with an error, whatever the engine may have answered, and the engine is
/// not asked. Otherwise a call to `sip:<number>@<domain>` is placed from
/// the default account, and the engine's status decides.
pub open spec fn call_plan(phone_number: Seq<char>, domain: Seq<char>, replies: Seq<i32>) -> StepView {
    if has_nul(phone_number) || has_nul(domain) {
        StepView::Finished(Err(call_target_failure()))
    } else {
        settled(
            EngineOpView::PlaceCall {
                account: DEFAULT_ACCOUNT,
                uri: marshalled(sip_uri(phone_number, domain)),
            },
            replies,
            call_failure(),
        )
    }
}

/// The request that sends the numeral of `digit` by RFC 2833, each digit for
/// as long as the engine chooses.
pub open spec fn dtmf_request(digit: u32) -> DtmfRequestView {
    DtmfRequestView {
        method: DtmfMethod::Rfc2833,
        duration: DtmfDuration::EngineDefault,
        digits: marshalled(decimal(digit as nat)),
    }
}

/// What `send_dtmf` does: the request goes out on the current call, and the
/// engine's status decides.
pub open spec fn dtmf_plan(digit: u32, replies: Seq<i32>) -> StepView {
    settled(
        EngineOpView::SendDtmf { call_id: CURRENT_CALL, request: dtmf_request(digit) },
        replies,
        dtmf_failure(),
    )
}

/// A null byte in the number or the domain ends the call with
/// `CallCreationError`, whatever the engine may have answered: at no point
/// is the engine asked to place the call.
pub proof fn lemma_call_rejects_nul(phone_number: Seq<char>, domain: Seq<char>, replies: Seq<i32>)
    requires
        has_nul(phone_number) || has_nul(domain),
    ensures
        call_plan(phone_number, domain, replies) matches StepView::Finished(Err(e)) && e.kind
            == ErrorKind::CallCreationError,
        !(call_plan(phone_number, domain, replies) is Perform),
{
}

/// For a digit from 0 to 9, the DTMF request that goes out holds that digit
/// as its one character, and the request is never refused before the engine
/// is asked.
pub proof fn lemma_dtmf_digit(digit: u32)
    requires
        digit <= 9,
    ensures
        dtmf_plan(digit, seq![]) == StepView::Perform(
            EngineOpView::SendDtmf { call_id: 0, request: dtmf_request(digit) },
        ),
        dtmf_request(digit).digits == marshalled(seq![digit_char(digit as nat)]),
        dtmf_request(digit).digits.buffer == seq![(48 + digit) as u8, 0u8],
        dtmf_request(digit).digits.slen == 1,
{
    lemma_single_digit(digit as nat);
}

/// Places a call to `phone_number` at `domain` from the default account.
///
/// `replies` holds the status the engine has returned for it, if any.
pub fn make_call(phone_number: &str, domain: &str, replies: &[i32]) -> (step: Step)
    ensures
        step@ == call_plan(phone_number@, domain@, replies@),
{
    proof {
        lemma_sip_uri_nul(phone_number@, domain@);
    }
    let call_extension: String = make_sip_uri(phone_number, domain);
    let call_extension_pj_str_t = match make_pj_str_t(call_extension) {
        Err(_y) => return Step::Finished(
            Err(
                TelephonyError::CallCreationError(
                    "Phone number or Domain supplied could not be represented as a C-String".to_owned(),
                ),
            ),
        ),
        Ok(x) => x,
    };
    settle(
        EngineOp::PlaceCall { account: DEFAULT_ACCOUNT, uri: call_extension_pj_str_t },
        replies,
        TelephonyError::CallCreationError("Could not place Call".to_owned()),
    )
}

/// Sends the decimal numeral of `digit` as DTMF digits on the current call.
///
/// `replies` holds the status the engine has returned for it, if any.
pub fn send_dtmf(digit: u32, replies: &[i32]) -> (step: Step)
    ensures
        step@ == dtmf_plan(digit, replies@),
{
    proof {
        lemma_decimal_digits(digit as nat);
    }
    let digits: String = decimal_string(digit);
    let digits_pj_str_t = match make_pj_str_t(digits) {
        Err(_e) => return Step::Finished(
            Err(
                TelephonyError::DTMFError(
                    "Cannot Send DTMF Tone, digits contain Null Somehow".to_owned(),
                ),
            ),
        ),
        Ok(v) => v,
    };
    let dtmf_tones = DtmfRequest {
        method: DtmfMethod::Rfc2833,
        duration: DtmfDuration::EngineDefault,
        digits: digits_pj_str_t,
    };
    settle(
        EngineOp::SendDtmf { call_id: CURRENT_CALL, request: dtmf_tones },
        replies,
        TelephonyError::DTMFError("Cannot Send DTMF Tone".to_owned()),
    )
}

/// Hangs up every call. The engine's status is not looked at.
pub fn hangup_calls() -> (ops: Vec<EngineOp>)
    ensures
        ops_view(ops@) == seq![EngineOpView::HangupAll],
{
    let mut ops: Vec<EngineOp> = Vec::new();
    ops.push(EngineOp::HangupAll);
    assert(ops_view(ops@) =~= seq![EngineOpView::HangupAll]);
    ops
}

} // verus!
