use vstd::prelude::*;
use vstd::string::StringExecFns;

use crate::error::{SentryTunnelError, TunnelErrorModel};

verus! {

/// The character for one decimal digit.
pub open spec fn dec_digit(d: int) -> char {
    if d == 0 {
        '0'
    } else if d == 1 {
        '1'
    } else if d == 2 {
        '2'
    } else if d == 3 {
        '3'
    } else if d == 4 {
        '4'
    } else if d == 5 {
        '5'
    } else if d == 6 {
        '6'
    } else if d == 7 {
        '7'
    } else if d == 8 {
        '8'
    } else {
        '9'
    }
}

/// The decimal digits of a number, most significant first.
pub open spec fn dec_str(n: int) -> Seq<char>
    recommends
        n >= 0,
    decreases n,
    via dec_str_decreases
{
    if n < 10 {
        seq![dec_digit(n)]
    } else {
        dec_str(n / 10).push(dec_digit(n % 10))
    }
}

#[via_fn]
proof fn dec_str_decreases(n: int) {
    if !(n < 10) {
        assert(0 <= n / 10 < n) by (nonlinear_arith)
            requires
                n >= 10,
        ;
    }
}

/// The diagnostic that a non-success upstream status is reported with.
pub open spec fn upstream_status_message(status: int) -> Seq<char> {
    "Upstream returned "@ + dec_str(status)
}

/// What the upstream relay reported back, as plain values: a transport
/// failure (connection error, timeout, TLS error) with its diagnostic, or a
/// response with its HTTP status code.
#[derive(Debug)]
pub enum UpstreamOutcome {
    TransportFailure(String),
    Responded(u16),
}

/// The mathematical value of an upstream outcome.
pub enum UpstreamOutcomeModel {
    TransportFailure(Seq<char>),
    Responded(u16),
}

impl View for UpstreamOutcome {
    type V = UpstreamOutcomeModel;

    open spec fn view(&self) -> UpstreamOutcomeModel {
        match self {
            UpstreamOutcome::TransportFailure(detail) => UpstreamOutcomeModel::TransportFailure(
                detail@,
            ),
            UpstreamOutcome::Responded(status) => UpstreamOutcomeModel::Responded(*status),
        }
    }
}

/// How the relay classifies what came back from upstream: success exactly on
/// a success status; everything else is a `TunnelError`.
pub open spec fn upstream_decision(outcome: UpstreamOutcomeModel) -> Result<
    (),
    TunnelErrorModel,
> {
    match outcome {
        UpstreamOutcomeModel::TransportFailure(detail) => Err(
            TunnelErrorModel::TunnelError(detail),
        ),
        UpstreamOutcomeModel::Responded(status) => if 200 <= status < 300 {
            Ok(())
        } else {
            Err(TunnelErrorModel::TunnelError(upstream_status_message(status as int)))
        },
    }
}

fn digit_char(d: u16) -> (r: &'static str)
    requires
        d < 10,
    ensures
        r@ == seq![dec_digit(d as int)],
{
    if d == 0 {
        proof {
            reveal_strlit("0");
            assert("0"@ =~= seq![dec_digit(0)]);
        }
        "0"
    } else if d == 1 {
        proof {
            reveal_strlit("1");
            assert("1"@ =~= seq![dec_digit(1)]);
        }
        "1"
    } else if d == 2 {
        proof {
            reveal_strlit("2");
            assert("2"@ =~= seq![dec_digit(2)]);
        }
        "2"
    } else if d == 3 {
        proof {
            reveal_strlit("3");
            assert("3"@ =~= seq![dec_digit(3)]);
        }
        "3"
    } else if d == 4 {
        proof {
            reveal_strlit("4");
            assert("4"@ =~= seq![dec_digit(4)]);
        }
        "4"
    } else if d == 5 {
        proof {
            reveal_strlit("5");
            assert("5"@ =~= seq![dec_digit(5)]);
        }
        "5"
    } else if d == 6 {
        proof {
            reveal_strlit("6");
            assert("6"@ =~= seq![dec_digit(6)]);
        }
        "6"
    } else if d == 7 {
        proof {
            reveal_strlit("7");
            assert("7"@ =~= seq![dec_digit(7)]);
        }
        "7"
    } else if d == 8 {
        proof {
            reveal_strlit("8");
            assert("8"@ =~= seq![dec_digit(8)]);
        }
        "8"
    } else {
        proof {
            reveal_strlit("9");
            assert("9"@ =~= seq![dec_digit(9)]);
        }
        "9"
    }
}

/// Render a number as decimal digits.
pub fn dec_string(n: u16) -> (r: String)
    ensures
        r@ == dec_str(n as int),
    decreases n,
{
    if n < 10 {
        String::from_str(digit_char(n))
    } else {
        proof {
            assert(0 <= n / 10 < n) by (nonlinear_arith)
                requires
                    n >= 10,
            ;
        }
        let mut s = dec_string(n / 10);
        s.append(digit_char(n % 10));
        proof {
            assert(dec_str((n as int) / 10).push(dec_digit((n as int) % 10)) =~= dec_str(
                (n as int) / 10,
            ) + seq![dec_digit((n as int) % 10)]);
        }
        s
    }
}

/// Classify an upstream HTTP status: success exactly on a success status,
/// else `TunnelError` naming the status.
pub fn classify_upstream_status(status: u16) -> (r: Result<(), SentryTunnelError>)
    ensures
        r is Ok <==> 200 <= status < 300,
        r matches Err(e) ==> e@ == TunnelErrorModel::TunnelError(
            upstream_status_message(status as int),
        ),
{
    if 200 <= status && status < 300 {
        Ok(())
    } else {
        let mut msg = String::from_str("Upstream returned ");
        let digits = dec_string(status);
        msg.append(digits.as_str());
        Err(SentryTunnelError::TunnelError(msg))
    }
}

/// Classify the outcome of the single relay attempt, exactly as
/// `upstream_decision` says: a transport failure or a non-success status is
/// a `TunnelError`; a success status is success, with no payload.
pub fn finish_relay(outcome: UpstreamOutcome) -> (r: Result<(), SentryTunnelError>)
    ensures
        r is Ok <==> upstream_decision(outcome@) is Ok,
        r matches Err(e) ==> e@ == upstream_decision(outcome@)->Err_0,
{
    match outcome {
        UpstreamOutcome::TransportFailure(detail) => Err(SentryTunnelError::TunnelError(detail)),
        UpstreamOutcome::Responded(status) => classify_upstream_status(status),
    }
}

} // verus!
