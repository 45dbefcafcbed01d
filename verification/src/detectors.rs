pub mod naive_detector;
