pub mod deposit;
pub mod make_loan_offer;
pub mod make_sell_offer;
pub mod withdraw;
