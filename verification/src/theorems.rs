//! What holds of the calendar across calls, proved from the outcomes that the
//! handlers are verified against.

use vstd::prelude::*;

use crate::amount::lemma_ratio_within_amount;
use crate::error::{AppError, PaymentError};
use crate::msg::{AppExecuteMsg, CoinView, ResponseView, StakeAction};
use crate::payment::paid_amount;
use crate::rules::{
    amount_to_slash, booked, bucket_conflicts, day_of, execute_outcome, expected_stake, is_admin,
    meeting_minutes, request_outcome, request_response, slot_conflicts, slot_error, stake_error,
    stake_outcome, stake_payouts, within_window,
};
use crate::state::{CalendarView, ConfigView, MeetingView};
use crate::time::{
    lemma_slot_length, local_day_start, local_midnight, local_second_of_day, representable,
    slot_on_day, valid_utc_offset,
};

verus! {

/// A slot and a meeting overlap when their half-open intervals share an instant.
pub open spec fn slot_overlaps(meeting: MeetingView, start: int, end: int) -> bool {
    meeting.start_time < end && start < meeting.end_time
}

/// A slot strictly encloses a meeting when it starts before the meeting starts
/// and ends after the meeting ends.
pub open spec fn slot_encloses(meeting: MeetingView, start: int, end: int) -> bool {
    start < meeting.start_time && meeting.end_time < end
}

/// No two meetings of a bucket overlap.
pub open spec fn bucket_disjoint(bucket: Seq<MeetingView>) -> bool {
    forall|i: int, j: int|
        0 <= i < j < bucket.len() ==> !slot_overlaps(
            #[trigger] bucket[i],
            (#[trigger] bucket[j]).start_time as int,
            bucket[j].end_time as int,
        )
}

/// No two meetings on the same day of a calendar overlap.
pub open spec fn calendar_disjoint(calendar: CalendarView) -> bool {
    forall|day: i64|
        calendar.days.contains_key(day) ==> bucket_disjoint(#[trigger] calendar.days[day])
}

/// The conflict test and overlap differ in one case only. For a meeting and a
/// slot that both start before they end, the slot overlaps the meeting exactly
/// when the test reports a conflict or the slot strictly encloses the meeting.
pub proof fn theorem_conflict_is_overlap_unless_enclosing(
    meeting: MeetingView,
    start: int,
    end: int,
)
    requires
        meeting.start_time < meeting.end_time,
        start < end,
    ensures
        slot_overlaps(meeting, start, end) <==> slot_conflicts(meeting, start, end)
            || slot_encloses(meeting, start, end),
{
}

/// A request for a slot that overlaps a meeting already accepted on its day,
/// without strictly enclosing that meeting, is rejected.
pub proof fn theorem_overlapping_request_is_rejected(
    calendar: CalendarView,
    requester: Seq<char>,
    amount_sent: u128,
    now: int,
    start: i64,
    end: i64,
    index: int,
)
    requires
        calendar.meetings_wf(),
        0 <= index < calendar.bucket(day_of(calendar.config, start as int)).len(),
        slot_overlaps(
            calendar.bucket(day_of(calendar.config, start as int))[index],
            start as int,
            end as int,
        ),
        !slot_encloses(
            calendar.bucket(day_of(calendar.config, start as int))[index],
            start as int,
            end as int,
        ),
    ensures
        request_outcome(calendar, requester, amount_sent, now, start, end).0 is Err,
        request_outcome(calendar, requester, amount_sent, now, start, end).1 == calendar,
{
    let day = day_of(calendar.config, start as int);
    let meeting = calendar.bucket(day)[index];
    if slot_error(calendar.config, start as int, end as int, now) is None {
        lemma_slot_length(calendar.config.utc_offset as int, start as int, end as int);
        lemma_slot_length(
            calendar.config.utc_offset as int,
            meeting.start_time as int,
            meeting.end_time as int,
        );
        theorem_conflict_is_overlap_unless_enclosing(meeting, start as int, end as int);
    }
}

/// Accepting a slot keeps the meetings of every day free of overlap, unless the
/// slot strictly encloses a meeting already accepted on its day.
pub proof fn theorem_accepted_meetings_do_not_overlap(
    calendar: CalendarView,
    requester: Seq<char>,
    amount_sent: u128,
    now: int,
    start: i64,
    end: i64,
)
    requires
        calendar.meetings_wf(),
        calendar_disjoint(calendar),
        request_outcome(calendar, requester, amount_sent, now, start, end).0 is Ok,
        forall|i: int|
            0 <= i < calendar.bucket(day_of(calendar.config, start as int)).len()
                ==> !slot_encloses(
                #[trigger] calendar.bucket(day_of(calendar.config, start as int))[i],
                start as int,
                end as int,
            ),
    ensures
        calendar_disjoint(request_outcome(calendar, requester, amount_sent, now, start, end).1),
{
    let day = day_of(calendar.config, start as int);
    let before = calendar.bucket(day);
    let after = request_outcome(calendar, requester, amount_sent, now, start, end).1;
    lemma_slot_length(calendar.config.utc_offset as int, start as int, end as int);
    assert forall|i: int, j: int| 0 <= i < j < after.days[day].len() implies !slot_overlaps(
        #[trigger] after.days[day][i],
        (#[trigger] after.days[day][j]).start_time as int,
        after.days[day][j].end_time as int,
    ) by {
        if j == before.len() {
            let meeting = before[i];
            lemma_slot_length(
                calendar.config.utc_offset as int,
                meeting.start_time as int,
                meeting.end_time as int,
            );
            theorem_conflict_is_overlap_unless_enclosing(meeting, start as int, end as int);
        }
    }
}

/// A request that was accepted conflicts with itself: sent again unchanged, it
/// is rejected with `MeetingConflictExists` and the calendar stays as the first
/// request left it.
pub proof fn theorem_repeated_request_conflicts(
    calendar: CalendarView,
    requester: Seq<char>,
    amount_sent: u128,
    now: int,
    start: i64,
    end: i64,
)
    requires
        request_outcome(calendar, requester, amount_sent, now, start, end).0 is Ok,
    ensures
        ({
            let after = request_outcome(calendar, requester, amount_sent, now, start, end).1;
            request_outcome(after, requester, amount_sent, now, start, end) == (
                Err::<ResponseView, AppError>(AppError::MeetingConflictExists),
                after,
            )
        }),
{
    let day = day_of(calendar.config, start as int);
    let after = request_outcome(calendar, requester, amount_sent, now, start, end).1;
    lemma_slot_length(calendar.config.utc_offset as int, start as int, end as int);
    let last = calendar.bucket(day).len() as int;
    assert(slot_conflicts(after.bucket(day)[last], start as int, end as int));
}

/// The payment check is exact: a request that pays anything but the minutes of
/// its slot times the price is rejected, whether it pays too much or too
/// little, and the calendar is unchanged. If the slot itself breaks no rule,
/// the rejection is `InvalidStakeAmountSent` and carries the stake expected.
pub proof fn theorem_wrong_payment_is_rejected(
    calendar: CalendarView,
    requester: Seq<char>,
    amount_sent: u128,
    now: int,
    start: i64,
    end: i64,
)
    requires
        amount_sent != expected_stake(calendar.config, start as int, end as int),
    ensures
        request_outcome(calendar, requester, amount_sent, now, start, end).0 is Err,
        request_outcome(calendar, requester, amount_sent, now, start, end).1 == calendar,
        slot_error(calendar.config, start as int, end as int, now) is None ==> request_outcome(
            calendar,
            requester,
            amount_sent,
            now,
            start,
            end,
        ).0 == Err::<ResponseView, AppError>(
            AppError::InvalidStakeAmountSent {
                expected_amount: expected_stake(calendar.config, start as int, end as int) as u128,
            },
        ),
{
}

/// A stake is resolved once. After a resolution has succeeded, every further
/// resolution of the same meeting that the authority sends once the meeting has
/// ended is rejected with `StakeAlreadyHandled`, whatever it decides, and
/// changes nothing.
pub proof fn theorem_stake_is_resolved_once(
    calendar: CalendarView,
    day: i64,
    meeting_index: u32,
    first_sender: Seq<char>,
    first_now: int,
    first_action: StakeAction,
    second_sender: Seq<char>,
    second_now: int,
    second_action: StakeAction,
)
    requires
        stake_outcome(
            calendar,
            first_sender,
            first_now,
            day,
            meeting_index as int,
            first_action,
        ).0 is Ok,
        is_admin(calendar, second_sender),
        second_now > calendar.days[day][meeting_index as int].end_time,
    ensures
        ({
            let index = meeting_index as int;
            let first = stake_outcome(calendar, first_sender, first_now, day, index, first_action);
            let after = first.1;
            stake_outcome(after, second_sender, second_now, day, index, second_action) == (
                Err::<ResponseView, AppError>(AppError::StakeAlreadyHandled),
                after,
            )
        }),
{
}

/// A partial slash shares the stake out completely. For a meeting of a well
/// formed calendar and any number of minutes late that does not exceed the
/// minutes of the meeting, the slashed part is at most the stake, and the
/// slashed part and the refund add up to the stake.
pub proof fn theorem_partial_slash_conserves_stake(
    calendar: CalendarView,
    day: i64,
    index: int,
    admin: Seq<char>,
    minutes_late: u32,
)
    requires
        calendar.meetings_wf(),
        calendar.days.contains_key(day),
        0 <= index < calendar.days[day].len(),
        minutes_late <= meeting_minutes(calendar.days[day][index]),
    ensures
        ({
            let meeting = calendar.days[day][index];
            let payouts = stake_payouts(
                meeting,
                admin,
                calendar.config.denom,
                StakeAction::PartialSlash { minutes_late },
            );
            &&& 0 <= amount_to_slash(meeting, minutes_late as int) <= meeting.amount_staked
            &&& payouts.len() == 2
            &&& payouts[0].to_address == meeting.requester
            &&& payouts[1].to_address == admin
            &&& payouts[1].amount == amount_to_slash(meeting, minutes_late as int)
            &&& payouts[0].amount + payouts[1].amount == meeting.amount_staked
        }),
{
    let meeting = calendar.days[day][index];
    lemma_slot_length(
        calendar.config.utc_offset as int,
        meeting.start_time as int,
        meeting.end_time as int,
    );
    lemma_ratio_within_amount(
        meeting.amount_staked as int,
        minutes_late as int,
        meeting_minutes(meeting),
    );
}

/// The daily window includes both of its bounds: a slot on one local day that
/// starts on the minute at which the window opens, ends on the minute at which
/// it closes and does not start before `now` breaks no rule of the clock and
/// the window.
pub proof fn theorem_window_bounds_are_included(config: ConfigView, start: int, end: int, now: int)
    requires
        representable(config.utc_offset as int, start),
        representable(config.utc_offset as int, end),
        local_day_start(config.utc_offset as int, start) == local_day_start(
            config.utc_offset as int,
            end,
        ),
        local_second_of_day(config.utc_offset as int, start)
            == config.start_time.spec_seconds_from_midnight(),
        local_second_of_day(config.utc_offset as int, end)
            == config.end_time.spec_seconds_from_midnight(),
        config.start_time.spec_seconds_from_midnight() % 60 == 0,
        config.end_time.spec_seconds_from_midnight() % 60 == 0,
        config.start_time.spec_seconds_from_midnight()
            < config.end_time.spec_seconds_from_midnight(),
        now <= start,
    ensures
        slot_error(config, start, end, now) is None,
{
}

/// A request for a slot that starts or ends outside the daily window, by a
/// minute or by more, is rejected and changes nothing.
pub proof fn theorem_slot_outside_window_is_rejected(
    calendar: CalendarView,
    requester: Seq<char>,
    amount_sent: u128,
    now: int,
    start: i64,
    end: i64,
)
    requires
        !within_window(
            calendar.config,
            local_second_of_day(calendar.config.utc_offset as int, start as int),
        ) || !within_window(
            calendar.config,
            local_second_of_day(calendar.config.utc_offset as int, end as int),
        ),
    ensures
        request_outcome(calendar, requester, amount_sent, now, start, end).0 is Err,
        request_outcome(calendar, requester, amount_sent, now, start, end).1 == calendar,
{
}

/// A slot that starts at the very instant of the request is not in the past:
/// it is judged as it would be at any earlier instant.
pub proof fn theorem_start_at_now_is_not_past(
    config: ConfigView,
    start: int,
    end: int,
    earlier: int,
)
    requires
        earlier <= start,
    ensures
        slot_error(config, start, end, start) == slot_error(config, start, end, earlier),
        slot_error(config, start, end, start) != Some(AppError::StartTimeMustBeInFuture),
{
}

/// A meeting is finished from the first second after its end. At the instant
/// of its end the authority is told that the meeting is not finished yet; one
/// second later that rule no longer stands in the way.
pub proof fn theorem_meeting_is_finished_after_its_end(
    calendar: CalendarView,
    sender: Seq<char>,
    day: i64,
    meeting_index: u32,
    action: StakeAction,
)
    requires
        is_admin(calendar, sender),
        calendar.days.contains_key(day),
        meeting_index < calendar.days[day].len(),
    ensures
        stake_error(
            calendar,
            sender,
            day,
            meeting_index as int,
            action,
            calendar.days[day][meeting_index as int].end_time as int,
        ) == Some(AppError::MeetingNotFinishedYet),
        stake_error(
            calendar,
            sender,
            day,
            meeting_index as int,
            action,
            calendar.days[day][meeting_index as int].end_time + 1,
        ) != Some(AppError::MeetingNotFinishedYet),
        calendar.days[day][meeting_index as int].amount_staked != 0 && !(action
            is PartialSlash) ==> stake_outcome(
            calendar,
            sender,
            calendar.days[day][meeting_index as int].end_time + 1,
            day,
            meeting_index as int,
            action,
        ).0 is Ok,
{
}

/// A meeting, once accepted, stays where it is. Whatever message the calendar
/// handles, every meeting it held before is still in the same bucket at the
/// same index afterwards, unchanged or with nothing but its stake set to zero.
pub proof fn theorem_meetings_only_lose_their_stake(
    calendar: CalendarView,
    now: int,
    sender: Seq<char>,
    funds: Seq<CoinView>,
    msg: AppExecuteMsg,
)
    ensures
        ({
            let after = execute_outcome(calendar, now, sender, funds, msg).1;
            forall|day: i64, i: int|
                calendar.days.contains_key(day) && 0 <= i < calendar.days[day].len() ==> {
                    &&& after.days.contains_key(day)
                    &&& i < after.days[day].len()
                    &&& after.days[day][i] == #[trigger] calendar.days[day][i]
                        || after.days[day][i] == calendar.days[day][i].resolved()
                }
        }),
{
}

/// Every meeting stays a slot of whole minutes on the local day whose bucket
/// holds it: if that holds of a calendar whose clock runs at an offset a clock
/// can run at, it holds after any message the calendar handles.
pub proof fn theorem_meetings_stay_on_their_day(
    calendar: CalendarView,
    now: int,
    sender: Seq<char>,
    funds: Seq<CoinView>,
    msg: AppExecuteMsg,
)
    requires
        calendar.meetings_wf(),
        valid_utc_offset(calendar.config.utc_offset as int),
    ensures
        execute_outcome(calendar, now, sender, funds, msg).1.meetings_wf(),
{
    let after = execute_outcome(calendar, now, sender, funds, msg).1;
    assert forall|day: i64, i: int|
        after.days.contains_key(day) && 0 <= i < after.days[day].len() implies slot_on_day(
        after.config.utc_offset as int,
        day as int,
        (#[trigger] after.days[day][i]).start_time as int,
        after.days[day][i].end_time as int,
    ) by {
        if calendar.days.contains_key(day) && i < calendar.days[day].len() {
            let before = calendar.days[day][i];
            assert(after.days[day][i] == before || after.days[day][i] == before.resolved());
        }
    }
}

/// The key of a bucket is the instant at which the local day begins: read on
/// the local clock it is a midnight, and the day it opens holds the instant
/// whose bucket it is.
pub proof fn theorem_bucket_key_is_the_instant_of_local_midnight(utc_offset: int, timestamp: int)
    ensures
        (local_midnight(utc_offset, timestamp) + utc_offset) % 86_400 == 0,
        local_midnight(utc_offset, timestamp) <= timestamp < local_midnight(utc_offset, timestamp)
            + 86_400,
{
}

/// A slot that costs nothing is booked by a message that pays nothing. Where
/// a minute costs nothing, a request that comes without funds, or with a
/// single coin of amount zero, for a slot that breaks no rule and conflicts
/// with no meeting is accepted, and the meeting is recorded with no stake.
pub proof fn theorem_free_slot_is_booked_without_payment(
    calendar: CalendarView,
    now: int,
    sender: Seq<char>,
    funds: Seq<CoinView>,
    start: i64,
    end: i64,
)
    requires
        calendar.config.price_per_minute == 0,
        paid_amount(funds, calendar.config.denom) == Err::<u128, PaymentError>(
            PaymentError::NoFunds,
        ),
        slot_error(calendar.config, start as int, end as int, now) is None,
        !bucket_conflicts(
            calendar.bucket(day_of(calendar.config, start as int)),
            start as int,
            end as int,
        ),
    ensures
        execute_outcome(
            calendar,
            now,
            sender,
            funds,
            AppExecuteMsg::RequestMeeting { start_time: start, end_time: end },
        ) == (
            Ok::<ResponseView, AppError>(request_response(start, end)),
            booked(calendar, start, end, 0, sender),
        ),
{
}

} // verus!
