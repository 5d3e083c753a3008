use calendar_app::error::AppError;
use calendar_app::handlers::execute::{handle_stake, request_meeting, sender_is_admin};
use calendar_app::handlers::instantiate::instantiate_handler;
use calendar_app::msg::{Action, AppInstantiateMsg, MessageInfo, Payout, StakeAction};
use calendar_app::state::{Calendar, Config};
use calendar_app::time::Time;

/// 2024-01-01T00:00:00Z.
const DAY: i64 = 1_704_067_200;

fn at(hour: i64, minute: i64) -> i64 {
    DAY + hour * 3600 + minute * 60
}

fn from(sender: &str) -> MessageInfo {
    MessageInfo { sender: sender.to_string(), funds: vec![] }
}

fn pay(to_address: &str, amount: u128) -> Payout {
    Payout { to_address: to_address.to_string(), amount, denom: "juno".to_string() }
}

/// A calendar with one meeting of `minutes` minutes from 10:00, staked at
/// `price_per_minute` a minute.
fn with_meeting(price_per_minute: u128, minutes: i64) -> Calendar {
    let mut calendar = instantiate_handler(
        from("authority"),
        AppInstantiateMsg {
            price_per_minute,
            denom: "juno".to_string(),
            utc_offset: 0,
            start_time: Time { hour: 9, minute: 0, second: 0 },
            end_time: Time { hour: 17, minute: 0, second: 0 },
        },
    );
    request_meeting(
        &mut calendar,
        "alice".to_string(),
        price_per_minute * minutes as u128,
        at(8, 0),
        at(10, 0),
        at(10, 0) + minutes * 60,
    )
    .unwrap();
    calendar
}

fn resolve(calendar: &mut Calendar, now: i64, action: StakeAction) -> Result<Vec<Payout>, AppError> {
    handle_stake(calendar, &from("authority"), now, DAY, 0, action).map(|r| r.messages)
}

#[test]
fn returned_stake_goes_to_the_requester() {
    let mut calendar = with_meeting(10, 30);
    let response =
        handle_stake(&mut calendar, &from("authority"), at(11, 0), DAY, 0, StakeAction::Return)
            .unwrap();
    assert_eq!(response.action, Action::ReturnStake);
    assert!(response.attributes.is_empty());
    assert_eq!(response.messages, vec![pay("alice", 300)]);
    assert_eq!(calendar.meetings(DAY).unwrap()[0].amount_staked, 0);
}

#[test]
fn fully_slashed_stake_goes_to_the_authority() {
    let mut calendar = with_meeting(10, 30);
    let response =
        handle_stake(&mut calendar, &from("authority"), at(11, 0), DAY, 0, StakeAction::FullSlash)
            .unwrap();
    assert_eq!(response.action, Action::FullSlash);
    assert_eq!(response.messages, vec![pay("authority", 300)]);
    assert_eq!(calendar.meetings(DAY).unwrap()[0].amount_staked, 0);
}

#[test]
fn partly_slashed_stake_is_shared() {
    let mut calendar = with_meeting(10, 30);
    let response = handle_stake(
        &mut calendar,
        &from("authority"),
        at(11, 0),
        DAY,
        0,
        StakeAction::PartialSlash { minutes_late: 10 },
    )
    .unwrap();
    assert_eq!(response.action, Action::PartialSlash);
    assert_eq!(response.messages, vec![pay("alice", 200), pay("authority", 100)]);
    assert_eq!(calendar.meetings(DAY).unwrap()[0].amount_staked, 0);
}

#[test]
fn slashed_part_is_rounded_down() {
    let mut calendar = with_meeting(1, 30);
    assert_eq!(
        resolve(&mut calendar, at(11, 0), StakeAction::PartialSlash { minutes_late: 7 }),
        Ok(vec![pay("alice", 23), pay("authority", 7)])
    );
    let mut calendar = with_meeting(100, 7);
    assert_eq!(
        resolve(&mut calendar, at(11, 0), StakeAction::PartialSlash { minutes_late: 3 }),
        Ok(vec![pay("alice", 400), pay("authority", 300)])
    );
    let mut calendar = with_meeting(1, 3);
    assert_eq!(
        resolve(&mut calendar, at(11, 0), StakeAction::PartialSlash { minutes_late: 2 }),
        Ok(vec![pay("alice", 1), pay("authority", 2)])
    );
    let mut calendar = with_meeting(11, 9);
    assert_eq!(
        resolve(&mut calendar, at(11, 0), StakeAction::PartialSlash { minutes_late: 4 }),
        Ok(vec![pay("alice", 55), pay("authority", 44)])
    );
    let mut calendar = with_meeting(5, 3);
    assert_eq!(
        resolve(&mut calendar, at(11, 0), StakeAction::PartialSlash { minutes_late: 1 }),
        Ok(vec![pay("alice", 10), pay("authority", 5)])
    );
    let mut calendar = with_meeting(1, 7);
    assert_eq!(
        resolve(&mut calendar, at(11, 0), StakeAction::PartialSlash { minutes_late: 6 }),
        Ok(vec![pay("alice", 1), pay("authority", 6)])
    );
}

#[test]
fn share_of_an_odd_stake_is_floored() {
    // 10 units over 3 minutes, 1 minute late: 10 / 3 rounds down to 3.
    let mut calendar = Calendar::new(
        Config {
            price_per_minute: 0,
            denom: "juno".to_string(),
            utc_offset: 0,
            start_time: Time { hour: 9, minute: 0, second: 0 },
            end_time: Time { hour: 17, minute: 0, second: 0 },
        },
        Some("authority".to_string()),
    );
    assert!(calendar.insert_day(
        DAY,
        vec![calendar_app::state::Meeting {
            start_time: at(10, 0),
            end_time: at(10, 3),
            requester: "alice".to_string(),
            amount_staked: 10,
        }]
    ));
    assert_eq!(
        resolve(&mut calendar, at(11, 0), StakeAction::PartialSlash { minutes_late: 1 }),
        Ok(vec![pay("alice", 7), pay("authority", 3)])
    );
}

#[test]
fn partial_slash_shares_out_the_whole_stake() {
    for minutes_late in 0..=45u32 {
        let mut calendar = with_meeting(7, 45);
        let payouts =
            resolve(&mut calendar, at(12, 0), StakeAction::PartialSlash { minutes_late }).unwrap();
        assert_eq!(payouts.len(), 2);
        assert_eq!(payouts[0].to_address, "alice");
        assert_eq!(payouts[1].to_address, "authority");
        assert_eq!(payouts[1].amount, 315 * minutes_late as u128 / 45);
        assert_eq!(payouts[0].amount + payouts[1].amount, 315);
    }
}

#[test]
fn not_late_at_all_refunds_everything() {
    let mut calendar = with_meeting(10, 30);
    assert_eq!(
        resolve(&mut calendar, at(11, 0), StakeAction::PartialSlash { minutes_late: 0 }),
        Ok(vec![pay("alice", 300), pay("authority", 0)])
    );
}

#[test]
fn late_for_the_whole_meeting_slashes_everything() {
    let mut calendar = with_meeting(10, 30);
    assert_eq!(
        resolve(&mut calendar, at(11, 0), StakeAction::PartialSlash { minutes_late: 30 }),
        Ok(vec![pay("alice", 0), pay("authority", 300)])
    );
}

#[test]
fn minutes_late_cannot_exceed_the_meeting() {
    let mut calendar = with_meeting(10, 30);
    assert_eq!(
        resolve(&mut calendar, at(11, 0), StakeAction::PartialSlash { minutes_late: 31 }),
        Err(AppError::MinutesLateCannotExceedDurationOfMeeting)
    );
    // The stake is still held and can be resolved.
    assert_eq!(calendar.meetings(DAY).unwrap()[0].amount_staked, 300);
    assert_eq!(resolve(&mut calendar, at(11, 0), StakeAction::Return), Ok(vec![pay("alice", 300)]));
}

#[test]
fn share_of_a_very_large_stake_is_exact() {
    let price = u128::MAX / 30;
    let stake = price * 30;
    let mut calendar = with_meeting(price, 30);
    assert_eq!(
        resolve(&mut calendar, at(11, 0), StakeAction::PartialSlash { minutes_late: 29 }),
        Ok(vec![pay("alice", price), pay("authority", stake - price)])
    );
}

#[test]
fn stake_is_resolved_once_whatever_is_decided() {
    let actions = [
        StakeAction::Return,
        StakeAction::FullSlash,
        StakeAction::PartialSlash { minutes_late: 5 },
        StakeAction::PartialSlash { minutes_late: 31 },
    ];
    for first in &actions[..3] {
        for second in &actions {
            let mut calendar = with_meeting(10, 30);
            assert!(resolve(&mut calendar, at(11, 0), *first).is_ok());
            assert_eq!(
                resolve(&mut calendar, at(12, 0), *second),
                Err(AppError::StakeAlreadyHandled)
            );
            assert_eq!(calendar.meetings(DAY).unwrap()[0].amount_staked, 0);
        }
    }
}

#[test]
fn meeting_is_not_finished_at_the_instant_of_its_end() {
    let mut calendar = with_meeting(10, 30);
    assert_eq!(
        resolve(&mut calendar, at(10, 30), StakeAction::Return),
        Err(AppError::MeetingNotFinishedYet)
    );
    assert_eq!(
        resolve(&mut calendar, at(9, 0), StakeAction::Return),
        Err(AppError::MeetingNotFinishedYet)
    );
    assert_eq!(calendar.meetings(DAY).unwrap()[0].amount_staked, 300);
}

#[test]
fn meeting_is_finished_one_second_after_its_end() {
    let mut calendar = with_meeting(10, 30);
    assert_eq!(
        resolve(&mut calendar, at(10, 30) + 1, StakeAction::Return),
        Ok(vec![pay("alice", 300)])
    );
}

#[test]
fn only_the_authority_resolves() {
    let mut calendar = with_meeting(10, 30);
    assert_eq!(
        handle_stake(&mut calendar, &from("alice"), at(11, 0), DAY, 0, StakeAction::Return)
            .map(|r| r.messages),
        Err(AppError::Unauthorized)
    );
    // Authorization is tried before anything else.
    assert_eq!(
        handle_stake(&mut calendar, &from("mallory"), at(11, 0), DAY + 1, 9, StakeAction::Return)
            .map(|r| r.messages),
        Err(AppError::Unauthorized)
    );
    assert_eq!(calendar.meetings(DAY).unwrap()[0].amount_staked, 300);
}

#[test]
fn calendar_without_authority_recognises_nobody() {
    let mut calendar = Calendar::new(
        Config {
            price_per_minute: 10,
            denom: "juno".to_string(),
            utc_offset: 0,
            start_time: Time { hour: 9, minute: 0, second: 0 },
            end_time: Time { hour: 17, minute: 0, second: 0 },
        },
        None,
    );
    assert!(!sender_is_admin(&calendar, &from("authority")));
    assert!(!sender_is_admin(&calendar, &from("")));
    assert_eq!(
        handle_stake(&mut calendar, &from("authority"), at(11, 0), DAY, 0, StakeAction::Return)
            .map(|r| r.messages),
        Err(AppError::Unauthorized)
    );
}

#[test]
fn authority_is_recognised_by_its_exact_name() {
    let calendar = with_meeting(10, 30);
    assert!(sender_is_admin(&calendar, &from("authority")));
    assert!(!sender_is_admin(&calendar, &from("Authority")));
    assert!(!sender_is_admin(&calendar, &from("authority ")));
    assert!(!sender_is_admin(&calendar, &from("alice")));
}

#[test]
fn day_without_bucket_has_no_meetings() {
    let mut calendar = with_meeting(10, 30);
    assert_eq!(
        handle_stake(
            &mut calendar,
            &from("authority"),
            at(11, 0),
            DAY + 86_400,
            0,
            StakeAction::Return
        )
        .map(|r| r.messages),
        Err(AppError::NoMeetingsAtGivenDayDateTime)
    );
    assert_eq!(
        handle_stake(&mut calendar, &from("authority"), at(11, 0), DAY + 1, 0, StakeAction::Return)
            .map(|r| r.messages),
        Err(AppError::NoMeetingsAtGivenDayDateTime)
    );
}

#[test]
fn index_beyond_the_bucket_names_no_meeting() {
    let mut calendar = with_meeting(10, 30);
    assert_eq!(
        handle_stake(&mut calendar, &from("authority"), at(11, 0), DAY, 1, StakeAction::Return)
            .map(|r| r.messages),
        Err(AppError::MeetingDoesNotExist)
    );
    assert_eq!(
        handle_stake(
            &mut calendar,
            &from("authority"),
            at(11, 0),
            DAY,
            u32::MAX,
            StakeAction::Return
        )
        .map(|r| r.messages),
        Err(AppError::MeetingDoesNotExist)
    );
}

#[test]
fn zero_stake_counts_as_resolved() {
    let mut calendar = with_meeting(0, 30);
    assert_eq!(
        resolve(&mut calendar, at(11, 0), StakeAction::Return),
        Err(AppError::StakeAlreadyHandled)
    );
}

#[test]
fn resolving_one_meeting_leaves_the_others() {
    let mut calendar = with_meeting(10, 30);
    request_meeting(&mut calendar, "bob".to_string(), 600, at(8, 0), at(11, 0), at(12, 0)).unwrap();
    let response = handle_stake(
        &mut calendar,
        &from("authority"),
        at(13, 0),
        DAY,
        1,
        StakeAction::PartialSlash { minutes_late: 15 },
    )
    .unwrap();
    assert_eq!(response.messages, vec![pay("bob", 450), pay("authority", 150)]);
    let bucket = calendar.meetings(DAY).unwrap();
    assert_eq!(bucket[0].amount_staked, 300);
    assert_eq!(bucket[0].requester, "alice");
    assert_eq!(bucket[1].amount_staked, 0);
    assert_eq!(bucket[1].requester, "bob");
    assert_eq!((bucket[1].start_time, bucket[1].end_time), (at(11, 0), at(12, 0)));
}

#[test]
fn slashed_part_is_the_floored_share_for_stakes_of_any_size() {
    let mut seed: u64 = 0xd6e8_feb8_6659_fd93;
    let mut next = move || {
        seed ^= seed << 13;
        seed ^= seed >> 7;
        seed ^= seed << 17;
        seed
    };
    for _ in 0..2_000 {
        let minutes = (next() % 420) as i64 + 1;
        let minutes_late = (next() % (minutes as u64 + 1)) as u32;
        let bits = next() % 118;
        let price = (((next() as u128) << 64 | next() as u128) >> (127 - bits)) + 1;
        let stake = price * minutes as u128;
        let mut calendar = with_meeting(price, minutes);
        let payouts =
            resolve(&mut calendar, at(18, 0), StakeAction::PartialSlash { minutes_late }).unwrap();
        // stake = q * minutes + r, so stake * late / minutes = q * late + r * late / minutes.
        let q = stake / minutes as u128;
        let r = stake % minutes as u128;
        let slashed = q * minutes_late as u128 + r * minutes_late as u128 / minutes as u128;
        assert_eq!(payouts, vec![pay("alice", stake - slashed), pay("authority", slashed)]);
    }
}
