use std::collections::HashMap;
use vstd::prelude::*;

use crate::time::{is_slot_on_day, slot_on_day, valid_utc_offset, Time};

verus! {

broadcast use vstd::std_specs::hash::group_hash_axioms;

/// The settings of one calendar.
#[derive(Clone, Debug, PartialEq, Eq)]
pub struct Config {
    /// Price of one minute of a slot, in units of `denom`.
    pub price_per_minute: u128,
    /// The concrete currency unit in which stakes are held.
    pub denom: String,
    /// Seconds east of UTC of the calendar's local clock.
    pub utc_offset: i32,
    /// First and last moment of the day at which a slot may begin or end.
    pub start_time: Time,
    pub end_time: Time,
}

/// The settings as contracts see them.
pub struct ConfigView {
    pub price_per_minute: u128,
    pub denom: Seq<char>,
    pub utc_offset: i32,
    pub start_time: Time,
    pub end_time: Time,
}

impl View for Config {
    type V = ConfigView;

    open spec fn view(&self) -> ConfigView {
        ConfigView {
            price_per_minute: self.price_per_minute,
            denom: self.denom@,
            utc_offset: self.utc_offset,
            start_time: self.start_time,
            end_time: self.end_time,
        }
    }
}

impl ConfigView {
    /// The offset is one a clock can run at and both bounds of the daily window
    /// are times a clock can show. That the window opens before it closes is
    /// left to whoever configures the calendar.
    pub open spec fn wf(self) -> bool {
        &&& valid_utc_offset(self.utc_offset as int)
        &&& self.start_time.wf()
        &&& self.end_time.wf()
    }
}

impl Config {
    /// Whether the settings are well formed.
    pub fn is_valid(&self) -> (r: bool)
        ensures
            r == self@.wf(),
    {
        -86_400 < self.utc_offset && self.utc_offset < 86_400 && self.start_time.is_valid()
            && self.end_time.is_valid()
    }
}

/// One accepted slot and the stake held for it.
#[derive(Clone, Debug, PartialEq, Eq)]
pub struct Meeting {
    pub start_time: i64,
    pub end_time: i64,
    /// Who posted the stake.
    pub requester: String,
    /// The stake still held; zero once it has been resolved.
    pub amount_staked: u128,
}

/// A meeting as contracts see it.
pub struct MeetingView {
    pub start_time: i64,
    pub end_time: i64,
    pub requester: Seq<char>,
    pub amount_staked: u128,
}

impl View for Meeting {
    type V = MeetingView;

    open spec fn view(&self) -> MeetingView {
        MeetingView {
            start_time: self.start_time,
            end_time: self.end_time,
            requester: self.requester@,
            amount_staked: self.amount_staked,
        }
    }
}

impl MeetingView {
    /// The same meeting with its stake resolved.
    pub open spec fn resolved(self) -> MeetingView {
        MeetingView { amount_staked: 0, ..self }
    }
}

/// The meetings of a vector, each by its view.
pub open spec fn meetings_view(meetings: Seq<Meeting>) -> Seq<MeetingView> {
    meetings.map_values(|m: Meeting| m@)
}

/// An identity that may be absent, by its view.
pub open spec fn identity_view(identity: Option<String>) -> Option<Seq<char>> {
    match identity {
        Some(name) => Some(name@),
        None => None,
    }
}

/// A calendar as contracts see it: its settings, its authority, and for each
/// local day that has any, under the instant of that day's local midnight, the
/// meetings in the order they were accepted.
pub struct CalendarView {
    pub config: ConfigView,
    pub admin: Option<Seq<char>>,
    pub days: Map<i64, Seq<MeetingView>>,
}

/// Every meeting of a bucket is a slot of whole minutes on the local day that
/// begins at the instant `day`.
pub open spec fn bucket_on_day(utc_offset: int, day: int, bucket: Seq<MeetingView>) -> bool {
    forall|i: int|
        0 <= i < bucket.len() ==> slot_on_day(
            utc_offset,
            day,
            (#[trigger] bucket[i]).start_time as int,
            bucket[i].end_time as int,
        )
}

impl CalendarView {
    /// The meetings on `day`, none if the day has no bucket.
    pub open spec fn bucket(self, day: i64) -> Seq<MeetingView> {
        if self.days.contains_key(day) {
            self.days[day]
        } else {
            Seq::empty()
        }
    }

    /// Every meeting is a slot of whole minutes on the local day whose bucket
    /// holds it. This holds of the view of every [`Calendar`].
    pub open spec fn meetings_wf(self) -> bool {
        forall|day: i64, i: int|
            self.days.contains_key(day) && 0 <= i < self.days[day].len() ==> slot_on_day(
                self.config.utc_offset as int,
                day as int,
                (#[trigger] self.days[day][i]).start_time as int,
                self.days[day][i].end_time as int,
            )
    }

    /// The same calendar with other settings.
    pub open spec fn with_config(self, config: ConfigView) -> CalendarView {
        CalendarView { config, ..self }
    }

    /// The same calendar with `meetings` as the bucket of `day`.
    pub open spec fn with_bucket(self, day: i64, meetings: Seq<MeetingView>) -> CalendarView {
        CalendarView { days: self.days.insert(day, meetings), ..self }
    }
}

/// Whether every one of `meetings` is a slot of whole minutes on the local day
/// that begins at the instant `day`.
pub fn is_bucket_on_day(utc_offset: i32, day: i64, meetings: &Vec<Meeting>) -> (r: bool)
    ensures
        r == bucket_on_day(utc_offset as int, day as int, meetings_view(meetings@)),
{
    let mut i: usize = 0;
    while i < meetings.len()
        invariant
            i <= meetings.len(),
            forall|j: int|
                0 <= j < i ==> slot_on_day(
                    utc_offset as int,
                    day as int,
                    (#[trigger] meetings_view(meetings@)[j]).start_time as int,
                    meetings_view(meetings@)[j].end_time as int,
                ),
        decreases meetings.len() - i,
    {
        let meeting = &meetings[i];
        assert(meetings_view(meetings@)[i as int] == meeting@);
        if !is_slot_on_day(utc_offset, day, meeting.start_time, meeting.end_time) {
            return false;
        }
        i += 1;
    }
    true
}

/// The state of one calendar: settings, authority and day buckets.
pub struct Calendar {
    config: Config,
    admin: Option<String>,
    days: HashMap<i64, Vec<Meeting>>,
}

impl View for Calendar {
    type V = CalendarView;

    closed spec fn view(&self) -> CalendarView {
        CalendarView {
            config: self.config@,
            admin: identity_view(self.admin),
            days: Map::new(
                |day: i64| self.days@.contains_key(day),
                |day: i64| meetings_view(self.days@[day]@),
            ),
        }
    }
}

impl Calendar {
    /// Every meeting a calendar holds is a slot of whole minutes on the local
    /// day whose bucket holds it.
    #[verifier::type_invariant]
    spec fn meetings_are_slots(self) -> bool {
        self@.meetings_wf()
    }

    /// A calendar with the given settings and authority and no meetings.
    pub fn new(config: Config, admin: Option<String>) -> (calendar: Calendar)
        ensures
            calendar@ == (CalendarView {
                config: config@,
                admin: identity_view(admin),
                days: Map::empty(),
            }),
    {
        let days: HashMap<i64, Vec<Meeting>> = HashMap::new();
        assert(Map::new(
            |day: i64| days@.contains_key(day),
            |day: i64| meetings_view(days@[day]@),
        ) =~= Map::<i64, Seq<MeetingView>>::empty());
        Calendar { config, admin, days }
    }

    /// Tells the caller what holds of every calendar: its meetings are well formed.
    pub fn meetings_are_well_formed(&self)
        ensures
            self@.meetings_wf(),
    {
        proof {
            use_type_invariant(self);
        }
    }

    /// The settings.
    pub fn config(&self) -> (config: &Config)
        ensures
            config@ == self@.config,
    {
        &self.config
    }

    /// The authority, if the calendar has one.
    pub fn admin(&self) -> (admin: &Option<String>)
        ensures
            identity_view(*admin) == self@.admin,
    {
        &self.admin
    }

    /// Replaces the price of a minute.
    pub(crate) fn set_price_per_minute(&mut self, price_per_minute: u128)
        ensures
            final(self)@ == old(self)@.with_config(
                ConfigView { price_per_minute, ..old(self)@.config },
            ),
    {
        proof {
            use_type_invariant(&*self);
        }
        self.config.price_per_minute = price_per_minute;
    }

    /// Replaces the currency unit.
    pub(crate) fn set_denom(&mut self, denom: String)
        ensures
            final(self)@ == old(self)@.with_config(
                ConfigView { denom: denom@, ..old(self)@.config },
            ),
    {
        proof {
            use_type_invariant(&*self);
        }
        self.config.denom = denom;
    }

    /// The bucket of `day`, if the day has one.
    pub fn meetings(&self, day: i64) -> (bucket: Option<&Vec<Meeting>>)
        ensures
            match bucket {
                Some(meetings) => self@.days.contains_key(day) && meetings_view(meetings@)
                    == self@.days[day],
                None => !self@.days.contains_key(day),
            },
    {
        self.days.get(&day)
    }

    /// Takes the buckets out of the calendar, leaving it without meetings.
    fn take_days(&mut self) -> (days: HashMap<i64, Vec<Meeting>>)
        ensures
            days == old(self).days,
            final(self).config == old(self).config,
            final(self).admin == old(self).admin,
    {
        let mut days: HashMap<i64, Vec<Meeting>> = HashMap::new();
        std::mem::swap(&mut days, &mut self.days);
        days
    }

    /// Appends `meeting`, a slot on `day`, to the bucket of `day`, opening the
    /// bucket if the day had none.
    pub(crate) fn push_meeting(&mut self, day: i64, meeting: Meeting)
        requires
            slot_on_day(
                old(self)@.config.utc_offset as int,
                day as int,
                meeting.start_time as int,
                meeting.end_time as int,
            ),
        ensures
            final(self)@ == old(self)@.with_bucket(day, old(self)@.bucket(day).push(meeting@)),
    {
        proof {
            use_type_invariant(&*self);
        }
        let mut days = self.take_days();
        let mut bucket = match days.remove(&day) {
            Some(bucket) => bucket,
            None => Vec::new(),
        };
        let ghost before = bucket@;
        assert(meetings_view(before) =~= old(self)@.bucket(day));
        bucket.push(meeting);
        assert(meetings_view(bucket@) =~= meetings_view(before).push(meeting@));
        days.insert(day, bucket);
        assert(Map::new(
            |day: i64| days@.contains_key(day),
            |day: i64| meetings_view(days@[day]@),
        ) =~= old(self)@.days.insert(day, old(self)@.bucket(day).push(meeting@)));
        self.days = days;
    }

    /// Sets the stake of the meeting at `index` on `day` to zero.
    pub(crate) fn clear_stake(&mut self, day: i64, index: usize)
        requires
            old(self)@.days.contains_key(day),
            index < old(self)@.days[day].len(),
        ensures
            final(self)@ == old(self)@.with_bucket(
                day,
                old(self)@.days[day].update(
                    index as int,
                    old(self)@.days[day][index as int].resolved(),
                ),
            ),
    {
        proof {
            use_type_invariant(&*self);
        }
        let mut days = self.take_days();
        let mut bucket = match days.remove(&day) {
            Some(bucket) => bucket,
            None => Vec::new(),
        };
        let ghost before = bucket@;
        bucket[index].amount_staked = 0;
        assert(meetings_view(bucket@) =~= meetings_view(before).update(
            index as int,
            before[index as int]@.resolved(),
        ));
        days.insert(day, bucket);
        assert(Map::new(
            |day: i64| days@.contains_key(day),
            |day: i64| meetings_view(days@[day]@),
        ) =~= old(self)@.days.insert(
            day,
            old(self)@.days[day].update(
                index as int,
                old(self)@.days[day][index as int].resolved(),
            ),
        ));
        self.days = days;
    }

    /// Puts a stored bucket back on `day`, replacing what the day held, if every
    /// meeting in it is a slot of whole minutes on that day. Otherwise the
    /// calendar is left as it was.
    pub fn insert_day(&mut self, day: i64, meetings: Vec<Meeting>) -> (accepted: bool)
        ensures
            accepted == bucket_on_day(
                old(self)@.config.utc_offset as int,
                day as int,
                meetings_view(meetings@),
            ),
            final(self)@ == if accepted {
                old(self)@.with_bucket(day, meetings_view(meetings@))
            } else {
                old(self)@
            },
    {
        proof {
            use_type_invariant(&*self);
        }
        if !is_bucket_on_day(self.config.utc_offset, day, &meetings) {
            return false;
        }
        let mut days = self.take_days();
        days.insert(day, meetings);
        assert(Map::new(
            |day: i64| days@.contains_key(day),
            |day: i64| meetings_view(days@[day]@),
        ) =~= old(self)@.days.insert(day, meetings_view(meetings@)));
        self.days = days;
        true
    }
}

} // verus!
