use vstd::prelude::*;

use crate::amount::{lemma_ratio_within_amount, multiply_ratio};
use crate::error::AppError;
use crate::msg::{
    coins_view, paid_out, resolved_asset_view, Action, AppExecuteMsg, AssetInfo, Attribute,
    MessageInfo, Payout, ResolvedAsset, Response, StakeAction,
};
use crate::payment::sent_stake;
use crate::rules::{
    bucket_conflicts, can_handle, config_outcome, config_response, day_of, execute_outcome,
    is_admin, lemma_payouts_share_out_the_stake, lemma_stake_fits, native_denom, request_outcome,
    request_response, response_view, slot_conflicts, slot_error, slot_minutes, stake_fits,
    stake_outcome, stake_payouts,
};
use crate::state::{meetings_view, Calendar, Config, Meeting};
use crate::time::{get_date_time, lemma_slot_length};

verus! {

/// A slot that breaks no rule of the clock and the daily window.
#[derive(Clone, Copy, Debug, PartialEq, Eq, Structural)]
pub struct Slot {
    /// The instant at which the slot's local day begins, the key of its bucket.
    pub day: i64,
    /// Whole minutes from the start of the slot to its end.
    pub minutes: u32,
}

/// Tries a requested slot against the rules of the clock and the daily window,
/// in order, and gives the first rule it breaks, or its day and its minutes.
pub fn validate_slot(
    config: &Config,
    now: i64,
    meeting_start_time: i64,
    meeting_end_time: i64,
) -> (r: Result<Slot, AppError>)
    requires
        config@.wf(),
    ensures
        match r {
            Ok(slot) => {
                &&& slot_error(
                    config@,
                    meeting_start_time as int,
                    meeting_end_time as int,
                    now as int,
                ) is None
                &&& slot.day == day_of(config@, meeting_start_time as int)
                &&& slot.minutes == slot_minutes(
                    config@.utc_offset as int,
                    meeting_start_time as int,
                    meeting_end_time as int,
                )
                &&& 1 <= slot.minutes < 1440
            },
            Err(error) => slot_error(
                config@,
                meeting_start_time as int,
                meeting_end_time as int,
                now as int,
            ) == Some(error),
        },
{
    let calendar_start_time = config.start_time.seconds_from_midnight();
    let calendar_end_time = config.end_time.seconds_from_midnight();

    let meeting_start_datetime = match get_date_time(config.utc_offset, meeting_start_time) {
        Ok(datetime) => datetime,
        Err(error) => { return Err(error); },
    };
    let meeting_end_datetime = match get_date_time(config.utc_offset, meeting_end_time) {
        Ok(datetime) => datetime,
        Err(error) => { return Err(error); },
    };
    let start_second = meeting_start_datetime.second_of_day;
    let end_second = meeting_end_datetime.second_of_day;

    if meeting_start_datetime.day_start != meeting_end_datetime.day_start {
        return Err(AppError::StartAndEndTimeNotOnSameDay);
    }
    if start_second % 60 != 0 || meeting_start_datetime.nanosecond != 0 {
        return Err(AppError::StartTimeNotRoundedToNearestMinute);
    }
    if end_second % 60 != 0 || meeting_end_datetime.nanosecond != 0 {
        return Err(AppError::EndTimeNotRoundedToNearestMinute);
    }
    if now > meeting_start_datetime.timestamp {
        return Err(AppError::StartTimeMustBeInFuture);
    }
    if start_second >= end_second {
        return Err(AppError::EndTimeMustBeAfterStartTime);
    }
    if start_second < calendar_start_time || start_second > calendar_end_time {
        return Err(AppError::StartTimeDoesNotFallWithinCalendarBounds);
    }
    if end_second < calendar_start_time || end_second > calendar_end_time {
        return Err(AppError::EndTimeDoesNotFallWithinCalendarBounds);
    }
    let utc_offset: i64 = config.utc_offset as i64;
    Ok(
        Slot {
            day: meeting_start_datetime.day_start - utc_offset,
            minutes: (end_second - start_second) / 60,
        },
    )
}

/// Whether the stake of a requested slot can be told: the slot breaks a rule,
/// or its minutes times the price fit the widest amount.
pub fn slot_stake_fits(
    config: &Config,
    now: i64,
    meeting_start_time: i64,
    meeting_end_time: i64,
) -> (r: bool)
    requires
        config@.wf(),
    ensures
        r == stake_fits(config@, meeting_start_time as int, meeting_end_time as int, now as int),
{
    match validate_slot(config, now, meeting_start_time, meeting_end_time) {
        Ok(slot) => {
            proof {
                lemma_stake_fits(
                    config@,
                    meeting_start_time as int,
                    meeting_end_time as int,
                    now as int,
                );
            }
            let minutes: u128 = slot.minutes as u128;
            minutes.checked_mul(config.price_per_minute).is_some()
        },
        Err(_) => true,
    }
}

/// Whether a requested slot conflicts with any of `meetings`.
fn has_conflict(meetings: &Vec<Meeting>, start: i64, end: i64) -> (r: bool)
    ensures
        r == bucket_conflicts(meetings_view(meetings@), start as int, end as int),
{
    let mut i: usize = 0;
    while i < meetings.len()
        invariant
            i <= meetings.len(),
            forall|j: int|
                0 <= j < i ==> !slot_conflicts(
                    #[trigger] meetings_view(meetings@)[j],
                    start as int,
                    end as int,
                ),
        decreases meetings.len() - i,
    {
        let meeting = &meetings[i];
        let start_time_conflicts = meeting.start_time <= start && start < meeting.end_time;
        let end_time_conflicts = meeting.start_time < end && end <= meeting.end_time;
        if start_time_conflicts || end_time_conflicts {
            assert(slot_conflicts(meetings_view(meetings@)[i as int], start as int, end as int));
            return true;
        }
        i += 1;
    }
    false
}

/// Reserves the slot from `meeting_start_time` to `meeting_end_time` for
/// `requester`, against a stake of `amount_sent`, at the instant `now`.
///
/// The slot is tried against the rules in order, and the first broken rule is
/// the error: both instants can be read on the local clock; they fall on the
/// same local day; each is on a whole minute; the start is not before `now`;
/// the start comes before the end; each lies in the daily window; the payment
/// equals the minutes of the slot times the price; and the slot conflicts
/// with no meeting already accepted on its day. On success the meeting is
/// appended to the bucket of its day, with the payment as its stake. On error
/// the calendar is unchanged.
///
/// The settings must be well formed, and the stake of a slot that breaks no
/// rule must fit the widest amount: [`Config::is_valid`] and
/// [`slot_stake_fits`] tell whether they do.
pub fn request_meeting(
    calendar: &mut Calendar,
    requester: String,
    amount_sent: u128,
    now: i64,
    meeting_start_time: i64,
    meeting_end_time: i64,
) -> (r: Result<Response, AppError>)
    requires
        old(calendar)@.config.wf(),
        stake_fits(
            old(calendar)@.config,
            meeting_start_time as int,
            meeting_end_time as int,
            now as int,
        ),
    ensures
        (response_view(r), final(calendar)@) == request_outcome(
            old(calendar)@,
            requester@,
            amount_sent,
            now as int,
            meeting_start_time,
            meeting_end_time,
        ),
{
    let slot = match validate_slot(calendar.config(), now, meeting_start_time, meeting_end_time) {
        Ok(slot) => slot,
        Err(error) => { return Err(error); },
    };
    proof {
        lemma_stake_fits(
            old(calendar)@.config,
            meeting_start_time as int,
            meeting_end_time as int,
            now as int,
        );
    }
    let duration_in_minutes: u128 = slot.minutes as u128;
    let price_per_minute = calendar.config().price_per_minute;
    let expected_amount: u128 = duration_in_minutes * price_per_minute;
    if amount_sent != expected_amount {
        return Err(AppError::InvalidStakeAmountSent { expected_amount });
    }
    let start_of_day_timestamp = slot.day;
    let conflict = match calendar.meetings(start_of_day_timestamp) {
        Some(existing_meetings) => has_conflict(
            existing_meetings,
            meeting_start_time,
            meeting_end_time,
        ),
        None => false,
    };
    if conflict {
        return Err(AppError::MeetingConflictExists);
    }
    calendar.push_meeting(
        start_of_day_timestamp,
        Meeting {
            start_time: meeting_start_time,
            end_time: meeting_end_time,
            requester,
            amount_staked: amount_sent,
        },
    );
    let mut attributes: Vec<Attribute> = Vec::new();
    attributes.push(Attribute::MeetingStartTime(meeting_start_time));
    attributes.push(Attribute::MeetingEndTime(meeting_end_time));
    let response = Response { action: Action::RequestMeeting, attributes, messages: Vec::new() };
    assert(response@.attributes =~= request_response(
        meeting_start_time,
        meeting_end_time,
    ).attributes);
    assert(response@.messages =~= Seq::empty());
    Ok(response)
}

/// Whether the sender of a message is the calendar's authority.
pub fn sender_is_admin(calendar: &Calendar, info: &MessageInfo) -> (r: bool)
    ensures
        r == is_admin(calendar@, info.sender@),
{
    match calendar.admin() {
        Some(admin) => *admin == info.sender,
        None => false,
    }
}

/// Resolves the stake of the meeting at `meeting_index` in the bucket of
/// `day_datetime`, the instant at which the meeting's local day begins, as the
/// authority decided in `stake_action`, at the instant `now`.
///
/// The rules are tried in order and the first broken rule is the error: the
/// sender is the authority; the day has a bucket; the bucket has the index;
/// the meeting has ended before `now`; its stake has not been resolved; and
/// for a partial slash, the minutes late do not exceed the minutes of the
/// meeting. On success the meeting's stake becomes zero and the response holds
/// the transfers: the whole stake to the requester, or the whole stake to the
/// authority, or the slashed part to the authority and the rest to the
/// requester. On error the calendar is unchanged.
pub fn handle_stake(
    calendar: &mut Calendar,
    info: &MessageInfo,
    now: i64,
    day_datetime: i64,
    meeting_index: u32,
    stake_action: StakeAction,
) -> (r: Result<Response, AppError>)
    ensures
        (response_view(r), final(calendar)@) == stake_outcome(
            old(calendar)@,
            info.sender@,
            now as int,
            day_datetime,
            meeting_index as int,
            stake_action,
        ),
        r matches Ok(response) ==> paid_out(response@.messages) == old(
            calendar,
        )@.days[day_datetime][meeting_index as int].amount_staked,
{
    if !sender_is_admin(calendar, info) {
        return Err(AppError::Unauthorized);
    }
    calendar.meetings_are_well_formed();
    let denom = calendar.config().denom.clone();
    let meetings = match calendar.meetings(day_datetime) {
        Some(meetings) => meetings,
        None => { return Err(AppError::NoMeetingsAtGivenDayDateTime); },
    };
    let index = meeting_index as usize;
    if index >= meetings.len() {
        return Err(AppError::MeetingDoesNotExist);
    }
    let meeting = &meetings[index];
    let ghost meeting_view = old(calendar)@.days[day_datetime][index as int];
    assert(meeting@ == meeting_view);
    if now <= meeting.end_time {
        return Err(AppError::MeetingNotFinishedYet);
    }
    let amount_staked = meeting.amount_staked;
    if amount_staked == 0 {
        return Err(AppError::StakeAlreadyHandled);
    }
    let requester = meeting.requester.clone();
    let mut messages: Vec<Payout> = Vec::new();
    let action = match stake_action {
        StakeAction::Return => {
            messages.push(Payout { to_address: requester, amount: amount_staked, denom });
            Action::ReturnStake
        },
        StakeAction::FullSlash => {
            messages.push(
                Payout { to_address: info.sender.clone(), amount: amount_staked, denom },
            );
            Action::FullSlash
        },
        StakeAction::PartialSlash { minutes_late } => {
            proof {
                lemma_slot_length(
                    old(calendar)@.config.utc_offset as int,
                    meeting_view.start_time as int,
                    meeting_view.end_time as int,
                );
            }
            let meeting_duration_in_minutes: u32 = ((meeting.end_time - meeting.start_time)
                / 60) as u32;
            if minutes_late > meeting_duration_in_minutes {
                return Err(AppError::MinutesLateCannotExceedDurationOfMeeting);
            }
            proof {
                lemma_ratio_within_amount(
                    amount_staked as int,
                    minutes_late as int,
                    meeting_duration_in_minutes as int,
                );
            }
            let amount_to_slash = multiply_ratio(
                amount_staked,
                minutes_late as u128,
                meeting_duration_in_minutes as u128,
            );
            messages.push(
                Payout {
                    to_address: requester,
                    amount: amount_staked - amount_to_slash,
                    denom: denom.clone(),
                },
            );
            messages.push(
                Payout { to_address: info.sender.clone(), amount: amount_to_slash, denom },
            );
            Action::PartialSlash
        },
    };
    calendar.clear_stake(day_datetime, index);
    let response = Response { action, attributes: Vec::new(), messages };
    assert(response@.messages =~= stake_payouts(
        meeting_view,
        info.sender@,
        old(calendar)@.config.denom,
        stake_action,
    ));
    assert(response@.attributes =~= Seq::empty());
    assert(paid_out(response@.messages) == meeting_view.amount_staked) by {
        lemma_payouts_share_out_the_stake(meeting_view, info.sender@, denom@, stake_action);
    }
    Ok(response)
}

/// Takes the concrete currency unit out of what the name service answered for
/// a symbolic asset name. Only a native coin is a currency unit.
pub fn resolve_native_ans_denom(resolved: AssetInfo) -> (r: Result<String, AppError>)
    ensures
        match r {
            Ok(denom) => native_denom(resolved@) == Ok::<Seq<char>, AppError>(denom@),
            Err(error) => native_denom(resolved@) == Err::<Seq<char>, AppError>(error),
        },
{
    match resolved {
        AssetInfo::Native(denom) => Ok(denom),
        AssetInfo::Cw20(_) => Err(AppError::NonNativeDenom),
    }
}

/// Changes the price of a minute, the currency unit, or both. Only the
/// authority may do so, and a new currency unit must have resolved to a
/// native coin; otherwise nothing changes.
pub fn update_config(
    calendar: &mut Calendar,
    info: &MessageInfo,
    price_per_minute: Option<u128>,
    denom: Option<ResolvedAsset>,
) -> (r: Result<Response, AppError>)
    ensures
        (response_view(r), final(calendar)@) == config_outcome(
            old(calendar)@,
            info.sender@,
            price_per_minute,
            resolved_asset_view(denom),
        ),
{
    if !sender_is_admin(calendar, info) {
        return Err(AppError::Unauthorized);
    }
    let mut attributes: Vec<Attribute> = Vec::new();
    if let Some(price_per_minute) = price_per_minute {
        attributes.push(Attribute::PricePerMinute(price_per_minute));
    }
    let new_denom = match denom {
        Some(unresolved) => {
            let denom = match resolve_native_ans_denom(unresolved.info) {
                Ok(denom) => denom,
                Err(error) => { return Err(error); },
            };
            attributes.push(Attribute::Denom(unresolved.entry));
            Some(denom)
        },
        None => None,
    };
    if let Some(price_per_minute) = price_per_minute {
        calendar.set_price_per_minute(price_per_minute);
    }
    if let Some(denom) = new_denom {
        calendar.set_denom(denom);
    }
    let response = Response { action: Action::UpdateConfig, attributes, messages: Vec::new() };
    assert(response@.attributes =~= config_response(
        price_per_minute,
        resolved_asset_view(denom),
    ).attributes);
    assert(response@.messages =~= Seq::empty());
    Ok(response)
}

/// Whether the calendar can handle `msg`.
pub fn message_can_be_handled(
    calendar: &Calendar,
    now: i64,
    info: &MessageInfo,
    msg: &AppExecuteMsg,
) -> (r: bool)
    ensures
        r == can_handle(calendar@, now as int, coins_view(info.funds@), *msg),
{
    match msg {
        AppExecuteMsg::RequestMeeting { start_time, end_time } => {
            match sent_stake(info, calendar.config().denom.as_str()) {
                Ok(_) => calendar.config().is_valid() && slot_stake_fits(
                    calendar.config(),
                    now,
                    *start_time,
                    *end_time,
                ),
                Err(_) => true,
            }
        },
        _ => true,
    }
}

/// Handles one message sent to the calendar at the instant `now`: a request
/// for a meeting, paid with the funds of the message; the resolution of a
/// stake; or a change of the settings. Funds that pay nothing are a payment
/// of zero, which books a slot that costs nothing.
///
/// The calendar must be able to handle the message, which
/// [`message_can_be_handled`] tells.
pub fn execute_handler(
    calendar: &mut Calendar,
    now: i64,
    info: MessageInfo,
    msg: AppExecuteMsg,
) -> (r: Result<Response, AppError>)
    requires
        can_handle(old(calendar)@, now as int, coins_view(info.funds@), msg),
    ensures
        (response_view(r), final(calendar)@) == execute_outcome(
            old(calendar)@,
            now as int,
            info.sender@,
            coins_view(info.funds@),
            msg,
        ),
{
    match msg {
        AppExecuteMsg::RequestMeeting { start_time, end_time } => {
            let amount_sent = match sent_stake(&info, calendar.config().denom.as_str()) {
                Ok(amount_sent) => amount_sent,
                Err(error) => { return Err(AppError::Payment(error)); },
            };
            request_meeting(calendar, info.sender, amount_sent, now, start_time, end_time)
        },
        AppExecuteMsg::SlashFullStake { day_datetime, meeting_index } => handle_stake(
            calendar,
            &info,
            now,
            day_datetime,
            meeting_index,
            StakeAction::FullSlash,
        ),
        AppExecuteMsg::SlashPartialStake {
            day_datetime,
            meeting_index,
            minutes_late,
        } => handle_stake(
            calendar,
            &info,
            now,
            day_datetime,
            meeting_index,
            StakeAction::PartialSlash { minutes_late },
        ),
        AppExecuteMsg::ReturnStake { day_datetime, meeting_index } => handle_stake(
            calendar,
            &info,
            now,
            day_datetime,
            meeting_index,
            StakeAction::Return,
        ),
        AppExecuteMsg::UpdateConfig { price_per_minute, denom } => update_config(
            calendar,
            &info,
            price_per_minute,
            denom,
        ),
    }
}

} // verus!
