pub mod otc_state;
