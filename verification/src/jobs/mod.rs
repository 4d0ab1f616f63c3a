pub mod overdue;
