use vstd::prelude::*;

use crate::msg::{AppInstantiateMsg, MessageInfo};
use crate::state::{Calendar, CalendarView, Config, ConfigView};

verus! {

/// The settings that a message asks for.
pub open spec fn instantiate_config(msg: AppInstantiateMsg) -> ConfigView {
    ConfigView {
        price_per_minute: msg.price_per_minute,
        denom: msg.denom@,
        utc_offset: msg.utc_offset,
        start_time: msg.start_time,
        end_time: msg.end_time,
    }
}

/// Opens a calendar with the settings of `msg`. Its sender becomes the
/// authority, and the calendar holds no meeting. The settings are taken as
/// they come.
pub fn instantiate_handler(info: MessageInfo, msg: AppInstantiateMsg) -> (calendar: Calendar)
    ensures
        calendar@ == (CalendarView {
            config: instantiate_config(msg),
            admin: Some(info.sender@),
            days: Map::empty(),
        }),
{
    let config: Config = Config {
        price_per_minute: msg.price_per_minute,
        denom: msg.denom,
        utc_offset: msg.utc_offset,
        start_time: msg.start_time,
        end_time: msg.end_time,
    };
    Calendar::new(config, Some(info.sender))
}

} // verus!
