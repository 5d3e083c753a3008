use vstd::prelude::*;

verus! {

/// Why a payment attached to a message was not accepted.
#[derive(Clone, Copy, Debug, PartialEq, Eq, Structural)]
pub enum PaymentError {
    /// The single coin sent is not in the expected denomination.
    MissingDenom,
    /// A coin in an unsupported denomination came along.
    ExtraDenom,
    /// More than one coin was sent.
    MultipleDenoms,
    /// Nothing was sent, or the coin sent has amount zero. A request takes
    /// such funds as a payment of zero.
    NoFunds,
    /// Funds were sent with a message that takes none.
    NonPayable,
}

/// The rejections of the calendar. Each is a final business-rule failure: the
/// operation changed nothing and retrying the same call gives the same answer.
#[derive(Clone, Copy, Debug, PartialEq, Eq, Structural)]
pub enum AppError {
    /// The caller is not the calendar's authority.
    Unauthorized,
    /// The attached funds are neither nothing nor a single coin of the
    /// calendar's denomination.
    Payment(PaymentError),
    /// A symbolic asset name resolved to something that is not a native coin.
    NonNativeDenom,
    /// An instant has no reading on the calendar's local clock.
    InvalidTime,
    StartAndEndTimeNotOnSameDay,
    StartTimeNotRoundedToNearestMinute,
    EndTimeNotRoundedToNearestMinute,
    StartTimeMustBeInFuture,
    EndTimeMustBeAfterStartTime,
    StartTimeDoesNotFallWithinCalendarBounds,
    EndTimeDoesNotFallWithinCalendarBounds,
    /// The payment differs from the price of the slot, which is carried along.
    InvalidStakeAmountSent { expected_amount: u128 },
    MeetingConflictExists,
    NoMeetingsAtGivenDayDateTime,
    MeetingDoesNotExist,
    MeetingNotFinishedYet,
    StakeAlreadyHandled,
    MinutesLateCannotExceedDurationOfMeeting,
}

} // verus!
