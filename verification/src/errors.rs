//! The single terminal error classification a caller receives. Every handler
//! either completes fully or returns one of these with no state change.
use vstd::prelude::*;

verus! {

/// Why an operation was refused. Authorization and validation failures are
/// checked before any state change; numeric failures are explicit, never a
/// silent wrap or saturation.
#[derive(Clone, Copy, Debug, PartialEq, Eq, Structural)]
pub enum ErrorCode {
    /// The pool's current tick lies outside the requested tick range.
    OutOfRange,
    /// A computed amount ceiling did not exceed the caller-supplied minimum.
    TooMuchAmount,
    /// A widened intermediate value does not fit the liquidity width.
    WhirlpoolNumberDownCastError,
    /// A sizing step produced zero liquidity.
    LiquidityZero,
    /// The square-root price range is empty or inverted.
    RangeInverted,
    /// The caller's identity fails the role check for this operation.
    Unauthorized,
    /// A transfer asks for more than the source holding's balance.
    InsufficientBalance,
}

impl ErrorCode {
    /// A short stable name for logs and messages.
    pub fn name(&self) -> (r: String)
        ensures r@.len() > 0,
    {
        let s = match self {
            ErrorCode::OutOfRange => "out of range",
            ErrorCode::TooMuchAmount => "too much amount",
            ErrorCode::WhirlpoolNumberDownCastError => "number downcast failed",
            ErrorCode::LiquidityZero => "liquidity is zero",
            ErrorCode::RangeInverted => "price range inverted",
            ErrorCode::Unauthorized => "unauthorized",
            ErrorCode::InsufficientBalance => "insufficient balance",
        };
        proof {
            reveal_strlit("out of range");
            reveal_strlit("too much amount");
            reveal_strlit("number downcast failed");
            reveal_strlit("liquidity is zero");
            reveal_strlit("price range inverted");
            reveal_strlit("unauthorized");
            reveal_strlit("insufficient balance");
        }
        s.to_string()
    }
}

} // verus!
