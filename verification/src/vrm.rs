pub mod humanoid_bone;
pub mod vr_ik;
pub mod first_person;
pub mod mtoon;
