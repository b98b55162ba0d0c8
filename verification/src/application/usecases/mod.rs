pub mod create_payment;
