//! Two cells that guard the one value they hold.
//!
//! [`Cell::ValueCell`] moves whole values in and out and never lends its
//! contents. [`RefCell::BorrowCell`] lends its contents, shared or
//! exclusively, and counts the loans at run time, refusing a request that
//! conflicts with a loan already out.
//!
//! Both are driven through `&mut`, so that every operation can say exactly
//! what it returns and what it leaves behind. Each comes with a small model
//! of its state, the laws that hold of it, and a record type that puts the
//! cell to use.
#![allow(non_snake_case)]

pub mod Cell;
pub mod RefCell;
