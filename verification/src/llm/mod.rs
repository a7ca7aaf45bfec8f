//! What is said to a language model, and the settings of the clients that
//! say it.

pub mod openai;
pub mod prompts;
pub mod watsonx;

pub use openai::OpenAILLM;
pub use prompts::{PromptManager, PromptTemplate};
pub use watsonx::WatsonxLLM;
