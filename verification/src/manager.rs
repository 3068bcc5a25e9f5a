pub mod globalpool_manager;
