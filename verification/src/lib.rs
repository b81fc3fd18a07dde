//! Process monitor library: the verified model of a terminal process table,
//! its filter language, column layout, selection and scrolling state.

pub mod row_selection;
pub mod text;
pub mod error;
pub mod buffer;
pub mod lexer;
pub mod float_bits;
pub mod process;
pub mod parser;
pub mod process_stats;
pub mod column;
pub mod sort;
pub mod process_table_row;
pub mod row_order;
pub mod table;
pub mod scroll;
pub mod table_state;
pub mod key;
pub mod views;
pub mod process_table_component;
pub mod text_line;
pub mod config;
pub mod config_manager;
pub mod application;
pub mod table_columns;
pub mod rows;
pub mod row_compare;
pub mod table_model;
pub mod process_entry;
pub mod view_state;
pub mod table_header;
pub mod column_prop;
pub mod terminate;
pub mod selection_state;
pub mod table_actions;
pub mod fixed_byte_array;
