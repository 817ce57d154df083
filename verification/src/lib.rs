//! Request building for large-language-model providers: the conversions of
//! provider-independent request options, messages, tools and usage into and
//! out of the Anthropic Messages API and the OpenAI Chat Completions API,
//! with their contracts and the laws they obey.
pub mod json;
pub mod text;
pub mod sdk;
pub mod anthropic;
pub mod chat_completions;
pub mod laws;
