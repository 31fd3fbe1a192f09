//! An interactive, tree-shaped questionnaire engine.
//!
//! A questionnaire is a tree of typed questions and nested repeatable
//! blocks.  The controller walks the tree in a strict depth-first order,
//! drives a pluggable view through a narrow interface, validates every
//! answer against the constraints of its question, and can replay a
//! previously persisted answer stream so that an interrupted session is
//! resumed where it stopped.

pub mod answers;
pub mod builder;
pub mod controller;
pub mod entries;
pub mod entry_builders;
pub mod numparse;
pub mod persistence;
pub mod positions;
pub mod validate;
pub mod view;

pub use answers::AnswerEntry;
pub use answers::BlockAnswer;
pub use answers::FloatValue;
pub use answers::QuestionAnswer;
pub use answers::QuestionAnswerInput;
pub use builder::QuestionaireBuilder;
pub use controller::ControllerResult;
pub use controller::QuestionaireController;
pub use controller::QuestionaireResult;
pub use entries::BoolEntry;
pub use entries::EntryType;
pub use entries::FloatEntry;
pub use entries::IntEntry;
pub use entries::OptionEntry;
pub use entries::QuestionEntry;
pub use entries::Questionaire;
pub use entries::QuestionaireEntry;
pub use entries::RepeatedQuestionEntry;
pub use entries::StringEntry;
pub use entries::SubBlock;
pub use persistence::MemoryPersistence;
pub use persistence::NoPersistence;
pub use persistence::PersistenceError;
pub use persistence::QuestionairePersistence;
pub use validate::ValidationError;
pub use view::MsgLevel;
pub use view::ProceedScreenResult;
pub use view::QuestionScreenResult;
pub use view::QuestionaireView;
pub use view::ScriptedView;
