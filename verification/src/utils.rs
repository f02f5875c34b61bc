pub mod byte_utils;
