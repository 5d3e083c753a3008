//! The rules of the calendar as functions of its view: what each operation
//! answers and what it leaves behind. The handlers are verified against these.

use vstd::prelude::*;

use crate::amount::{lemma_ratio_within_amount, ratio_of};
use crate::error::AppError;
use crate::msg::{
    paid_out, resolved_asset_view, Action, AppExecuteMsg, AssetInfoView, AttributeView, CoinView,
    PayoutView, ResolvedAssetView, Response, ResponseView, StakeAction,
};
use crate::payment::stake_sent;
use crate::state::{CalendarView, ConfigView, MeetingView};
use crate::time::{local_day_start, local_midnight, local_second_of_day, representable};

verus! {

/// Whether a second of the day lies in the daily window, both bounds included.
pub open spec fn within_window(config: ConfigView, second_of_day: int) -> bool {
    config.start_time.spec_seconds_from_midnight() <= second_of_day
        <= config.end_time.spec_seconds_from_midnight()
}

/// The first rule that a requested slot breaks on the clock and the daily
/// window alone, in the order in which the rules are tried; `None` if it
/// breaks none.
pub open spec fn slot_error(config: ConfigView, start: int, end: int, now: int) -> Option<
    AppError,
> {
    let offset = config.utc_offset as int;
    let start_second = local_second_of_day(offset, start);
    let end_second = local_second_of_day(offset, end);
    if !representable(offset, start) || !representable(offset, end) {
        Some(AppError::InvalidTime)
    } else if local_day_start(offset, start) != local_day_start(offset, end) {
        Some(AppError::StartAndEndTimeNotOnSameDay)
    } else if start_second % 60 != 0 {
        Some(AppError::StartTimeNotRoundedToNearestMinute)
    } else if end_second % 60 != 0 {
        Some(AppError::EndTimeNotRoundedToNearestMinute)
    } else if now > start {
        Some(AppError::StartTimeMustBeInFuture)
    } else if start_second >= end_second {
        Some(AppError::EndTimeMustBeAfterStartTime)
    } else if !within_window(config, start_second) {
        Some(AppError::StartTimeDoesNotFallWithinCalendarBounds)
    } else if !within_window(config, end_second) {
        Some(AppError::EndTimeDoesNotFallWithinCalendarBounds)
    } else {
        None
    }
}

/// Whole minutes from the start of a slot to its end, by the local time of day.
pub open spec fn slot_minutes(utc_offset: int, start: int, end: int) -> int {
    (local_second_of_day(utc_offset, end) - local_second_of_day(utc_offset, start)) / 60
}

/// The stake owed for a slot: its minutes times the price of a minute, which
/// is nothing where a minute costs nothing.
pub open spec fn expected_stake(config: ConfigView, start: int, end: int) -> int {
    if config.price_per_minute == 0 {
        0
    } else {
        slot_minutes(config.utc_offset as int, start, end) * config.price_per_minute
    }
}

/// The overlap test between a requested slot and an accepted meeting: the
/// requested start falls in the meeting's half-open interval, or the requested
/// end falls in the meeting's interval taken open at its start and closed at
/// its end.
pub open spec fn slot_conflicts(meeting: MeetingView, start: int, end: int) -> bool {
    ||| meeting.start_time <= start < meeting.end_time
    ||| meeting.start_time < end <= meeting.end_time
}

/// Whether a requested slot conflicts with any meeting of a bucket.
pub open spec fn bucket_conflicts(bucket: Seq<MeetingView>, start: int, end: int) -> bool {
    exists|i: int| 0 <= i < bucket.len() && slot_conflicts(#[trigger] bucket[i], start, end)
}

/// The day bucket to which a slot starting at `start` belongs: the bucket is
/// keyed by the instant at which the local day of `start` begins.
pub open spec fn day_of(config: ConfigView, start: int) -> i64 {
    local_midnight(config.utc_offset as int, start) as i64
}

/// Why a request is rejected, `None` if it is accepted: the first broken rule
/// of the slot, else a payment that differs from the expected stake, else a
/// conflict with a meeting already accepted on the same day.
pub open spec fn request_error(
    calendar: CalendarView,
    start: int,
    end: int,
    amount_sent: int,
    now: int,
) -> Option<AppError> {
    match slot_error(calendar.config, start, end, now) {
        Some(error) => Some(error),
        None => if amount_sent != expected_stake(calendar.config, start, end) {
            Some(
                AppError::InvalidStakeAmountSent {
                    expected_amount: expected_stake(calendar.config, start, end) as u128,
                },
            )
        } else if bucket_conflicts(calendar.bucket(day_of(calendar.config, start)), start, end) {
            Some(AppError::MeetingConflictExists)
        } else {
            None
        },
    }
}

/// The calendar after it has accepted a slot: the new meeting stands last in
/// the bucket of its day and nothing else has changed.
pub open spec fn booked(
    calendar: CalendarView,
    start: i64,
    end: i64,
    amount_sent: u128,
    requester: Seq<char>,
) -> CalendarView {
    let day = day_of(calendar.config, start as int);
    calendar.with_bucket(
        day,
        calendar.bucket(day).push(
            MeetingView { start_time: start, end_time: end, requester, amount_staked: amount_sent },
        ),
    )
}

/// What the calendar reports when it accepts a slot.
pub open spec fn request_response(start: i64, end: i64) -> ResponseView {
    ResponseView {
        action: Action::RequestMeeting,
        attributes: seq![
            AttributeView::MeetingStartTime(start),
            AttributeView::MeetingEndTime(end),
        ],
        messages: Seq::empty(),
    }
}

/// The outcome of a handler, with the response by its view.
pub open spec fn response_view(r: Result<Response, AppError>) -> Result<ResponseView, AppError> {
    match r {
        Ok(response) => Ok(response@),
        Err(error) => Err(error),
    }
}

/// What a request does: the answer to the requester and the calendar
/// afterwards. A rejected request leaves the calendar as it was.
pub open spec fn request_outcome(
    calendar: CalendarView,
    requester: Seq<char>,
    amount_sent: u128,
    now: int,
    start: i64,
    end: i64,
) -> (Result<ResponseView, AppError>, CalendarView) {
    match request_error(calendar, start as int, end as int, amount_sent as int, now) {
        Some(error) => (Err(error), calendar),
        None => (
            Ok(request_response(start, end)),
            booked(calendar, start, end, amount_sent, requester),
        ),
    }
}

/// The expected stake of a slot that breaks no rule fits the widest amount. A
/// slot lasts less than a day, so every stake fits when the price of 1439
/// minutes does.
pub open spec fn stake_fits(config: ConfigView, start: int, end: int, now: int) -> bool {
    slot_error(config, start, end, now) is None ==> {
        ||| config.price_per_minute * 1439 <= u128::MAX
        ||| expected_stake(config, start, end) <= u128::MAX
    }
}

/// Of a slot that breaks no rule, the stake fits exactly when the minutes of
/// the slot times the price do not exceed the widest amount.
pub proof fn lemma_stake_fits(config: ConfigView, start: int, end: int, now: int)
    requires
        slot_error(config, start, end, now) is None,
    ensures
        1 <= slot_minutes(config.utc_offset as int, start, end) <= 1439,
        stake_fits(config, start, end, now) <==> expected_stake(config, start, end) <= u128::MAX,
{
    let minutes = slot_minutes(config.utc_offset as int, start, end);
    let price = config.price_per_minute as int;
    assert(minutes * price <= price * 1439) by (nonlinear_arith)
        requires
            0 <= minutes <= 1439,
            0 <= price,
    ;
}

/// Whether `sender` is the calendar's authority. A calendar without an
/// authority has none to recognise.
pub open spec fn is_admin(calendar: CalendarView, sender: Seq<char>) -> bool {
    calendar.admin == Some(sender)
}

/// Whole minutes from the start of a meeting to its end, by its instants.
pub open spec fn meeting_minutes(meeting: MeetingView) -> int {
    (meeting.end_time - meeting.start_time) / 60
}

/// The part of a meeting's stake that goes to the authority when the requester
/// was `minutes_late` minutes late: the stake times the minutes late over the
/// minutes of the meeting, rounded down.
///
/// The solver does not divide by a number it has to work out first. To have a
/// share of given numbers evaluated, tell it the minutes of the meeting, as in
/// `assert(meeting_minutes(meeting) == 30)`.
pub open spec fn amount_to_slash(meeting: MeetingView, minutes_late: int) -> int {
    ratio_of(meeting.amount_staked as int, minutes_late, meeting_minutes(meeting))
}

/// Why a stake is not resolved, `None` if it is: the rules in the order in
/// which they are tried.
pub open spec fn stake_error(
    calendar: CalendarView,
    sender: Seq<char>,
    day: i64,
    index: int,
    action: StakeAction,
    now: int,
) -> Option<AppError> {
    if !is_admin(calendar, sender) {
        Some(AppError::Unauthorized)
    } else if !calendar.days.contains_key(day) {
        Some(AppError::NoMeetingsAtGivenDayDateTime)
    } else if !(0 <= index < calendar.days[day].len()) {
        Some(AppError::MeetingDoesNotExist)
    } else if now <= calendar.days[day][index].end_time {
        Some(AppError::MeetingNotFinishedYet)
    } else if calendar.days[day][index].amount_staked == 0 {
        Some(AppError::StakeAlreadyHandled)
    } else if action matches StakeAction::PartialSlash { minutes_late } && minutes_late
        > meeting_minutes(calendar.days[day][index]) {
        Some(AppError::MinutesLateCannotExceedDurationOfMeeting)
    } else {
        None
    }
}

/// The calendar after the stake of the meeting at `index` on `day` has been
/// resolved: that meeting holds no stake and nothing else has changed.
pub open spec fn stake_resolved(calendar: CalendarView, day: i64, index: int) -> CalendarView {
    calendar.with_bucket(
        day,
        calendar.days[day].update(index, calendar.days[day][index].resolved()),
    )
}

/// The transfers that resolve a meeting's stake, in the order they are issued.
pub open spec fn stake_payouts(
    meeting: MeetingView,
    admin: Seq<char>,
    denom: Seq<char>,
    action: StakeAction,
) -> Seq<PayoutView> {
    match action {
        StakeAction::Return => seq![
            PayoutView { to_address: meeting.requester, amount: meeting.amount_staked, denom },
        ],
        StakeAction::FullSlash => seq![
            PayoutView { to_address: admin, amount: meeting.amount_staked, denom },
        ],
        StakeAction::PartialSlash { minutes_late } => seq![
            PayoutView {
                to_address: meeting.requester,
                amount: (meeting.amount_staked - amount_to_slash(meeting, minutes_late as int))
                    as u128,
                denom,
            },
            PayoutView {
                to_address: admin,
                amount: amount_to_slash(meeting, minutes_late as int) as u128,
                denom,
            },
        ],
    }
}

/// The transfers that resolve a stake share it out completely: their amounts
/// add up to the stake, provided that a partial slash is for no more minutes
/// than the meeting has, and that the meeting has any.
pub proof fn lemma_payouts_share_out_the_stake(
    meeting: MeetingView,
    admin: Seq<char>,
    denom: Seq<char>,
    action: StakeAction,
)
    requires
        action matches StakeAction::PartialSlash { minutes_late } ==> minutes_late
            <= meeting_minutes(meeting) && 0 < meeting_minutes(meeting),
    ensures
        paid_out(stake_payouts(meeting, admin, denom, action)) == meeting.amount_staked,
{
    reveal_with_fuel(paid_out, 3);
    if let StakeAction::PartialSlash { minutes_late } = action {
        lemma_ratio_within_amount(
            meeting.amount_staked as int,
            minutes_late as int,
            meeting_minutes(meeting),
        );
    }
}

/// How a resolution is reported.
pub open spec fn stake_action_tag(action: StakeAction) -> Action {
    match action {
        StakeAction::Return => Action::ReturnStake,
        StakeAction::FullSlash => Action::FullSlash,
        StakeAction::PartialSlash { .. } => Action::PartialSlash,
    }
}

/// What the calendar reports when it resolves the stake of `meeting`.
pub open spec fn stake_response(
    meeting: MeetingView,
    admin: Seq<char>,
    denom: Seq<char>,
    action: StakeAction,
) -> ResponseView {
    ResponseView {
        action: stake_action_tag(action),
        attributes: Seq::empty(),
        messages: stake_payouts(meeting, admin, denom, action),
    }
}

/// What resolving a stake does: the answer to the sender and the calendar
/// afterwards. A rejected resolution leaves the calendar as it was.
pub open spec fn stake_outcome(
    calendar: CalendarView,
    sender: Seq<char>,
    now: int,
    day: i64,
    index: int,
    action: StakeAction,
) -> (Result<ResponseView, AppError>, CalendarView) {
    match stake_error(calendar, sender, day, index, action, now) {
        Some(error) => (Err(error), calendar),
        None => (
            Ok(stake_response(calendar.days[day][index], sender, calendar.config.denom, action)),
            stake_resolved(calendar, day, index),
        ),
    }
}

/// The denomination of a resolved asset, which must be a native coin.
pub open spec fn native_denom(info: AssetInfoView) -> Result<Seq<char>, AppError> {
    match info {
        AssetInfoView::Native(denom) => Ok(denom),
        AssetInfoView::Cw20(_) => Err(AppError::NonNativeDenom),
    }
}

/// Why the settings are not changed, `None` if they are.
pub open spec fn config_error(
    calendar: CalendarView,
    sender: Seq<char>,
    denom: Option<ResolvedAssetView>,
) -> Option<AppError> {
    if !is_admin(calendar, sender) {
        Some(AppError::Unauthorized)
    } else if denom matches Some(asset) && native_denom(asset.info) is Err {
        Some(AppError::NonNativeDenom)
    } else {
        None
    }
}

/// The settings after a change: the price and the currency unit are replaced
/// where one is given, the rest stays.
pub open spec fn updated_config(
    config: ConfigView,
    price_per_minute: Option<u128>,
    denom: Option<ResolvedAssetView>,
) -> ConfigView {
    ConfigView {
        price_per_minute: match price_per_minute {
            Some(price) => price,
            None => config.price_per_minute,
        },
        denom: match denom {
            Some(asset) => native_denom(asset.info)->Ok_0,
            None => config.denom,
        },
        ..config
    }
}

/// What the calendar reports when its settings are changed: the new price if
/// one was given, then the symbolic name of the new currency unit if one was given.
pub open spec fn config_response(
    price_per_minute: Option<u128>,
    denom: Option<ResolvedAssetView>,
) -> ResponseView {
    let price_attributes = match price_per_minute {
        Some(price) => seq![AttributeView::PricePerMinute(price)],
        None => Seq::empty(),
    };
    let denom_attributes = match denom {
        Some(asset) => seq![AttributeView::Denom(asset.entry)],
        None => Seq::empty(),
    };
    ResponseView {
        action: Action::UpdateConfig,
        attributes: price_attributes + denom_attributes,
        messages: Seq::empty(),
    }
}

/// What a change of settings does: the answer to the sender and the calendar
/// afterwards. A rejected change leaves the calendar as it was.
pub open spec fn config_outcome(
    calendar: CalendarView,
    sender: Seq<char>,
    price_per_minute: Option<u128>,
    denom: Option<ResolvedAssetView>,
) -> (Result<ResponseView, AppError>, CalendarView) {
    match config_error(calendar, sender, denom) {
        Some(error) => (Err(error), calendar),
        None => (
            Ok(config_response(price_per_minute, denom)),
            calendar.with_config(updated_config(calendar.config, price_per_minute, denom)),
        ),
    }
}

/// What handling a message does: the answer to the sender and the calendar
/// afterwards. A request pays with the funds of the message: nothing, or
/// exactly one coin of the calendar's currency unit. What it pays is then
/// held against the price of the slot like any other payment, so that a slot
/// that costs nothing is booked by a request that pays nothing.
pub open spec fn execute_outcome(
    calendar: CalendarView,
    now: int,
    sender: Seq<char>,
    funds: Seq<CoinView>,
    msg: AppExecuteMsg,
) -> (Result<ResponseView, AppError>, CalendarView) {
    match msg {
        AppExecuteMsg::RequestMeeting { start_time, end_time } => match stake_sent(
            funds,
            calendar.config.denom,
        ) {
            Ok(amount_sent) => request_outcome(
                calendar,
                sender,
                amount_sent,
                now,
                start_time,
                end_time,
            ),
            Err(error) => (Err(AppError::Payment(error)), calendar),
        },
        AppExecuteMsg::SlashFullStake { day_datetime, meeting_index } => stake_outcome(
            calendar,
            sender,
            now,
            day_datetime,
            meeting_index as int,
            StakeAction::FullSlash,
        ),
        AppExecuteMsg::SlashPartialStake {
            day_datetime,
            meeting_index,
            minutes_late,
        } => stake_outcome(
            calendar,
            sender,
            now,
            day_datetime,
            meeting_index as int,
            StakeAction::PartialSlash { minutes_late },
        ),
        AppExecuteMsg::ReturnStake { day_datetime, meeting_index } => stake_outcome(
            calendar,
            sender,
            now,
            day_datetime,
            meeting_index as int,
            StakeAction::Return,
        ),
        AppExecuteMsg::UpdateConfig { price_per_minute, denom } => config_outcome(
            calendar,
            sender,
            price_per_minute,
            resolved_asset_view(denom),
        ),
    }
}

/// Whether the calendar can handle `msg`. It can handle every message but a
/// request whose funds are accepted while its settings are not well formed or
/// the stake of the requested slot cannot be told.
pub open spec fn can_handle(
    calendar: CalendarView,
    now: int,
    funds: Seq<CoinView>,
    msg: AppExecuteMsg,
) -> bool {
    msg matches AppExecuteMsg::RequestMeeting { start_time, end_time } ==> stake_sent(
        funds,
        calendar.config.denom,
    ) is Ok ==> calendar.config.wf() && stake_fits(
        calendar.config,
        start_time as int,
        end_time as int,
        now,
    )
}

} // verus!
