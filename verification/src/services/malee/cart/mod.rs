pub mod reducer;
