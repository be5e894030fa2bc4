pub mod create_game;
pub mod declare_winner;
pub mod join_game;
pub mod stop_game;

pub use create_game::create_game;
pub use declare_winner::declare_winner;
pub use join_game::join_game;
pub use stop_game::stop_game;
