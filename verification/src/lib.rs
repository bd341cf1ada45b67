pub mod code_gen;
pub mod components;
pub mod dashboard;
pub mod keys;
pub mod messages;
pub mod options;
pub mod postman;
pub mod projects;
pub mod renderer;
pub mod requests;
pub mod selector;
pub mod syntax;
pub mod text;
pub mod textarea;
pub mod textinput;
pub mod theme;
