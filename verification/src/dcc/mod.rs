//! The input gates of the governance pipeline (subject binding, evidence and
//! ambiguity) and the conversation-context utilities they share.

pub mod lexicon;
pub mod types;
pub mod continuation;
pub mod evidence;
pub mod ambiguity;
pub mod subject;
