pub mod engine;
pub mod vacation;

pub use engine::{
    is_night_window, schedule, should_ac_be_on, CycleSlot, SchedulerAction, SchedulerEngine,
};
pub use vacation::VacationSettings;
