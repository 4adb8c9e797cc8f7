//! Bridges an immediate-mode GUI toolkit to a handheld console's display and
//! input hardware. The verified core is the text-input replay state machine
//! (driving a modal on-screen keyboard and replaying its result as synthetic
//! key/text events) and the per-frame texture-cache submission protocol.

mod ime;
mod render;
mod stage;
mod texcache;

pub use ime::FrameOutput;
pub use ime::Ime;
pub use ime::OutputEvent;
pub use ime::WidgetClick;
pub use ime::full_replay_sequence;
pub use ime::last_click;
pub use ime::lemma_replay_sequence;
pub use ime::lemma_round_trip;
pub use render::DrawPrim;
pub use render::MissingTexture;
pub use render::after_frame;
pub use render::lemma_eviction_safety;
pub use render::mesh_ids;
pub use render::plan_draws;
pub use render::render_frame;
pub use stage::ImeStage;
pub use stage::Key;
pub use stage::SyntheticEvent;
pub use stage::lemma_stage_cycle;
pub use texcache::TextureCache;
pub use texcache::apply_adds;
