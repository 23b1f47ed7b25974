pub mod es_helper;
pub mod s3_helper;
pub mod scores;
pub mod sqs_helper;
