pub mod entitylist;
pub mod map_tracker;
pub mod weapon_tracker;
