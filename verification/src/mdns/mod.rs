pub mod advertiser;
