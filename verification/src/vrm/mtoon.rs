pub mod material;
