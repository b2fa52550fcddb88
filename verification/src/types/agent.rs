//! Agent-related types: agent kinds, model configuration, tool rules and the agent
//! creation request.

use vstd::prelude::*;
use crate::json::JsonDoc;
use crate::types::common::{LettaId, Metadata, StringMap, entries_insert};
use crate::text::strings_view;
use crate::types::memory::Block;

verus! {

/// Agent type enum.
#[derive(PartialEq, Eq, Structural, Clone, Copy, Debug)]
pub enum AgentType {
    /// Standard memgpt-style agent.
    MemGPT,
    /// Version 2 memgpt agent.
    MemGPTv2,
    /// React agent.
    React,
    /// Workflow agent.
    Workflow,
    /// Split-thread agent
    SplitThread,
    /// Sleeptime agent
    Sleeptime,
    /// Voice Conversation agent
    VoiceConvo,
    /// Voice sleeptime agent
    VoiceSleeptime,
    /// Other agent types.
    Other,
}

impl Default for AgentType {
    fn default() -> (r: Self)
        ensures
            r == AgentType::MemGPT,
    {
        AgentType::MemGPT
    }
}

/// The name the API uses for an AgentType.
pub open spec fn agent_type_name(t: AgentType) -> Seq<char> {
    match t {
        AgentType::MemGPT => "memgpt_agent"@,
        AgentType::MemGPTv2 => "memgpt_v2_agent"@,
        AgentType::React => "react_agent"@,
        AgentType::Workflow => "workflow_agent"@,
        AgentType::SplitThread => "split_thread_agent"@,
        AgentType::Sleeptime => "sleeptime_agent"@,
        AgentType::VoiceConvo => "voice_convo_agent"@,
        AgentType::VoiceSleeptime => "voice_sleeptime_agent"@,
        AgentType::Other => "Other"@,
    }
}

/// The agent type a name denotes (other names give `Other`).
pub open spec fn agent_type_from_name(s: Seq<char>) -> AgentType {
    if s == "memgpt_agent"@ {
        AgentType::MemGPT
    } else if s == "memgpt_v2_agent"@ {
        AgentType::MemGPTv2
    } else if s == "react_agent"@ {
        AgentType::React
    } else if s == "workflow_agent"@ {
        AgentType::Workflow
    } else if s == "split_thread_agent"@ {
        AgentType::SplitThread
    } else if s == "sleeptime_agent"@ {
        AgentType::Sleeptime
    } else if s == "voice_convo_agent"@ {
        AgentType::VoiceConvo
    } else if s == "voice_sleeptime_agent"@ {
        AgentType::VoiceSleeptime
    } else {
        AgentType::Other
    }
}

impl AgentType {
    /// The name the API uses for this value.
    pub fn as_str(&self) -> (r: &'static str)
        ensures
            r@ == agent_type_name(*self),
    {
        match self {
            AgentType::MemGPT => "memgpt_agent",
            AgentType::MemGPTv2 => "memgpt_v2_agent",
            AgentType::React => "react_agent",
            AgentType::Workflow => "workflow_agent",
            AgentType::SplitThread => "split_thread_agent",
            AgentType::Sleeptime => "sleeptime_agent",
            AgentType::VoiceConvo => "voice_convo_agent",
            AgentType::VoiceSleeptime => "voice_sleeptime_agent",
            AgentType::Other => "Other",
        }
    }

    /// Reads a value from its name (other names give `Other`).
    pub fn from_name(name: &str) -> (r: AgentType)
        ensures
            r == agent_type_from_name(name@),
    {
        let c = crate::text::chars_of(name);
        if crate::text::chars_eq(&c, &crate::text::chars_of("memgpt_agent")) {
            return AgentType::MemGPT;
        }
        if crate::text::chars_eq(&c, &crate::text::chars_of("memgpt_v2_agent")) {
            return AgentType::MemGPTv2;
        }
        if crate::text::chars_eq(&c, &crate::text::chars_of("react_agent")) {
            return AgentType::React;
        }
        if crate::text::chars_eq(&c, &crate::text::chars_of("workflow_agent")) {
            return AgentType::Workflow;
        }
        if crate::text::chars_eq(&c, &crate::text::chars_of("split_thread_agent")) {
            return AgentType::SplitThread;
        }
        if crate::text::chars_eq(&c, &crate::text::chars_of("sleeptime_agent")) {
            return AgentType::Sleeptime;
        }
        if crate::text::chars_eq(&c, &crate::text::chars_of("voice_convo_agent")) {
            return AgentType::VoiceConvo;
        }
        if crate::text::chars_eq(&c, &crate::text::chars_of("voice_sleeptime_agent")) {
            return AgentType::VoiceSleeptime;
        }
        AgentType::Other
    }
}

/// Law: every agent type's name reads back as it.
pub proof fn law_agent_type_name_roundtrip(t: AgentType)
    ensures
        agent_type_from_name(agent_type_name(t)) == t,
{
    reveal_strlit("memgpt_agent");
    reveal_strlit("memgpt_v2_agent");
    reveal_strlit("react_agent");
    reveal_strlit("workflow_agent");
    reveal_strlit("split_thread_agent");
    reveal_strlit("sleeptime_agent");
    reveal_strlit("voice_convo_agent");
    reveal_strlit("voice_sleeptime_agent");
    reveal_strlit("Other");
    // Any two names differ in length or in one of their first two letters.
    assert("memgpt_agent"@.len() == 12 && "memgpt_agent"@[0] == 'm' && "memgpt_agent"@[1] == 'e');
    assert("memgpt_v2_agent"@.len() == 15 && "memgpt_v2_agent"@[0] == 'm' && "memgpt_v2_agent"@[1] == 'e');
    assert("react_agent"@.len() == 11 && "react_agent"@[0] == 'r' && "react_agent"@[1] == 'e');
    assert("workflow_agent"@.len() == 14 && "workflow_agent"@[0] == 'w' && "workflow_agent"@[1] == 'o');
    assert("split_thread_agent"@.len() == 18 && "split_thread_agent"@[0] == 's' && "split_thread_agent"@[1] == 'p');
    assert("sleeptime_agent"@.len() == 15 && "sleeptime_agent"@[0] == 's' && "sleeptime_agent"@[1] == 'l');
    assert("voice_convo_agent"@.len() == 17 && "voice_convo_agent"@[0] == 'v' && "voice_convo_agent"@[1] == 'o');
    assert("voice_sleeptime_agent"@.len() == 21 && "voice_sleeptime_agent"@[0] == 'v' && "voice_sleeptime_agent"@[1] == 'o');
    assert("Other"@.len() == 5 && "Other"@[0] == 'O' && "Other"@[1] == 't');
    match t {
        AgentType::MemGPT => {},
        AgentType::MemGPTv2 => {},
        AgentType::React => {},
        AgentType::Workflow => {},
        AgentType::SplitThread => {},
        AgentType::Sleeptime => {},
        AgentType::VoiceConvo => {},
        AgentType::VoiceSleeptime => {},
        AgentType::Other => {},
    }
}

/// Available model endpoint types
#[derive(PartialEq, Eq, Structural, Clone, Copy, Debug)]
pub enum ModelEndpointType {
    /// OpenAI
    Openai,
    /// Anthropic
    Anthropic,
    /// Cohere
    Cohere,
    /// Google AI
    GoogleAi,
    /// Google Vertex AI
    GoogleVertex,
    /// Azure AI
    Azure,
    /// Groq
    Groq,
    /// Ollama
    Ollama,
    /// Open Webui
    Webui,
    /// Open Webui (legacy api)
    WebuiLegacy,
    /// LM Studio
    Lmstudio,
    /// LM Studio (legacy api)
    LmstudioLegacy,
    /// LM Studio (chat completions API)
    LmstudioChatCompletions,
    /// Llamacpp
    Llamacpp,
    /// Koboldcpp
    Koboldcpp,
    /// vLLM
    Vllm,
    /// Hugging Face
    HuggingFace,
    /// Mistral
    Mistral,
    /// Together
    Together,
    /// Other model types.
    Other,
}

/// Available embedding endpoint types
#[derive(PartialEq, Eq, Structural, Clone, Copy, Debug)]
pub enum EmbeddingEndpointType {
    /// OpenAI
    Openai,
    /// Azure
    Azure,
    /// Cohere
    Cohere,
    /// HuggingFace
    HuggingFace,
    /// Ollama
    Ollama,
    /// Other embedding types
    Other,
}

/// LLM configuration for an agent.
#[derive(Debug)]
pub struct LLMConfig {
    /// Model name/identifier.
    pub model: String,
    /// Model endpoint type.
    pub model_endpoint_type: ModelEndpointType,
    /// Model endpoint URL.
    pub model_endpoint: Option<String>,
    /// Context window size.
    pub context_window: Option<u32>,
    /// Provider name.
    pub provider_name: Option<String>,
    /// Provider category.
    pub provider_category: Option<String>,
    /// Model wrapper.
    pub model_wrapper: Option<String>,
    /// Whether to include inner thoughts in function keyword arguments.
    pub put_inner_thoughts_in_kwargs: Option<bool>,
    /// Provider-specific handle or identifier.
    pub handle: Option<String>,
    /// Temperature, as the bits of its IEEE 754 single-precision value.
    pub temperature: Option<u32>,
    /// Max tokens.
    pub max_tokens: Option<u32>,
    /// Enable reasoner.
    pub enable_reasoner: Option<bool>,
    /// Reasoning effort.
    pub reasoning_effort: Option<String>,
    /// Max reasoning tokens.
    pub max_reasoning_tokens: Option<u32>,
    /// Additional configuration.
    pub extra: Metadata,
}

/// A configuration with the given model, endpoint type, endpoint, context window and
/// provider name, and everything else unset.
pub open spec fn llm_config_preset(
    c: LLMConfig,
    model: Seq<char>,
    endpoint_type: ModelEndpointType,
    endpoint: Option<Seq<char>>,
    context_window: u32,
    provider: Seq<char>,
) -> bool {
    &&& c.model@ == model
    &&& c.model_endpoint_type == endpoint_type
    &&& crate::json::opt_string_view(c.model_endpoint) == endpoint
    &&& c.context_window == Some(context_window)
    &&& crate::json::opt_string_view(c.provider_name) == Some(provider)
    &&& c.provider_category is None
    &&& c.model_wrapper is None
    &&& c.put_inner_thoughts_in_kwargs is None
    &&& c.handle is None
    &&& c.temperature is None
    &&& c.max_tokens is None
    &&& c.enable_reasoner is None
    &&& c.reasoning_effort is None
    &&& c.max_reasoning_tokens is None
    &&& c.extra@.len() == 0
    &&& c.extra.wf()
}

impl LLMConfig {
    /// Create a configuration for OpenAI models (128000-token context window).
    pub fn openai(model: &str) -> (r: Self)
        ensures
            llm_config_preset(r, model@, ModelEndpointType::Openai, None, 128000, "openai"@),
    {
        LLMConfig {
            model: model.to_string(),
            model_endpoint_type: ModelEndpointType::Openai,
            model_endpoint: None,
            context_window: Some(128000),
            provider_name: Some("openai".to_string()),
            provider_category: None,
            model_wrapper: None,
            put_inner_thoughts_in_kwargs: None,
            handle: None,
            temperature: None,
            max_tokens: None,
            enable_reasoner: None,
            reasoning_effort: None,
            max_reasoning_tokens: None,
            extra: Metadata::new(),
        }
    }

    /// Create a configuration for Anthropic models (200000-token context window).
    pub fn anthropic(model: &str) -> (r: Self)
        ensures
            llm_config_preset(r, model@, ModelEndpointType::Anthropic, None, 200000, "anthropic"@),
    {
        LLMConfig {
            model: model.to_string(),
            model_endpoint_type: ModelEndpointType::Anthropic,
            model_endpoint: None,
            context_window: Some(200000),
            provider_name: Some("anthropic".to_string()),
            provider_category: None,
            model_wrapper: None,
            put_inner_thoughts_in_kwargs: None,
            handle: None,
            temperature: None,
            max_tokens: None,
            enable_reasoner: None,
            reasoning_effort: None,
            max_reasoning_tokens: None,
            extra: Metadata::new(),
        }
    }

    /// Create a configuration for local models served by Ollama at `endpoint`
    /// (4096-token context window).
    pub fn local(model: &str, endpoint: &str) -> (r: Self)
        ensures
            llm_config_preset(r, model@, ModelEndpointType::Ollama, Some(endpoint@), 4096, "ollama"@),
    {
        LLMConfig {
            model: model.to_string(),
            model_endpoint_type: ModelEndpointType::Ollama,
            model_endpoint: Some(endpoint.to_string()),
            context_window: Some(4096),
            provider_name: Some("ollama".to_string()),
            provider_category: None,
            model_wrapper: None,
            put_inner_thoughts_in_kwargs: None,
            handle: None,
            temperature: None,
            max_tokens: None,
            enable_reasoner: None,
            reasoning_effort: None,
            max_reasoning_tokens: None,
            extra: Metadata::new(),
        }
    }

    /// Set the context window size.
    pub fn with_context_window(self, size: u32) -> (r: Self)
        ensures
            r == (LLMConfig { context_window: Some(size), ..self }),
    {
        LLMConfig { context_window: Some(size), ..self }
    }

    /// Set the temperature, given as the bits of its IEEE 754 single-precision value.
    pub fn with_temperature_bits(self, temperature: u32) -> (r: Self)
        ensures
            r == (LLMConfig { temperature: Some(temperature), ..self }),
    {
        LLMConfig { temperature: Some(temperature), ..self }
    }

    /// Set the max tokens.
    pub fn with_max_tokens(self, max_tokens: u32) -> (r: Self)
        ensures
            r == (LLMConfig { max_tokens: Some(max_tokens), ..self }),
    {
        LLMConfig { max_tokens: Some(max_tokens), ..self }
    }

    /// Set the model endpoint.
    pub fn with_endpoint(self, endpoint: &str) -> (r: Self)
        ensures
            r.model_endpoint matches Some(e) && e@ == endpoint@,
            r == (LLMConfig { model_endpoint: r.model_endpoint, ..self }),
    {
        LLMConfig { model_endpoint: Some(endpoint.to_string()), ..self }
    }

    /// Enable reasoner with optional effort and token limits; an absent effort or limit
    /// leaves the current one.
    pub fn with_reasoner(self, effort: Option<&str>, max_tokens: Option<u32>) -> (r: Self)
        ensures
            r.enable_reasoner == Some(true),
            match effort {
                Some(e) => r.reasoning_effort matches Some(x) && x@ == e@,
                None => r.reasoning_effort == self.reasoning_effort,
            },
            r.max_reasoning_tokens == match max_tokens {
                Some(t) => Some(t),
                None => self.max_reasoning_tokens,
            },
            r == (LLMConfig {
                enable_reasoner: Some(true),
                reasoning_effort: r.reasoning_effort,
                max_reasoning_tokens: r.max_reasoning_tokens,
                ..self
            }),
    {
        let LLMConfig {
            model, model_endpoint_type, model_endpoint, context_window, provider_name,
            provider_category, model_wrapper, put_inner_thoughts_in_kwargs, handle, temperature,
            max_tokens: mt, enable_reasoner: _, reasoning_effort, max_reasoning_tokens, extra,
        } = self;
        let reasoning_effort = match effort {
            Some(e) => Some(e.to_string()),
            None => reasoning_effort,
        };
        let max_reasoning_tokens = match max_tokens {
            Some(t) => Some(t),
            None => max_reasoning_tokens,
        };
        LLMConfig {
            model, model_endpoint_type, model_endpoint, context_window, provider_name,
            provider_category, model_wrapper, put_inner_thoughts_in_kwargs, handle, temperature,
            max_tokens: mt, enable_reasoner: Some(true), reasoning_effort, max_reasoning_tokens, extra,
        }
    }
}

/// Azure-specific embedding configuration.
#[derive(Debug)]
pub struct AzureEmbeddingConfig {
    /// Azure endpoint.
    pub azure_endpoint: Option<String>,
    /// Azure version.
    pub azure_version: Option<String>,
    /// Azure deployment.
    pub azure_deployment: Option<String>,
}

impl Default for AzureEmbeddingConfig {
    fn default() -> (r: Self)
        ensures
            r.azure_endpoint is None,
            r.azure_version is None,
            r.azure_deployment is None,
    {
        AzureEmbeddingConfig { azure_endpoint: None, azure_version: None, azure_deployment: None }
    }
}

/// Embedding configuration for an agent.
#[derive(Debug)]
pub struct EmbeddingConfig {
    /// Embedding model name.
    pub embedding_model: Option<String>,
    /// Embedding endpoint type.
    pub embedding_endpoint_type: Option<EmbeddingEndpointType>,
    /// Embedding endpoint URL.
    pub embedding_endpoint: Option<String>,
    /// Embedding dimension.
    pub embedding_dim: Option<u32>,
    /// Embedding chunk size.
    pub embedding_chunk_size: Option<u32>,
    /// Provider-specific handle or identifier.
    pub handle: Option<String>,
    /// Azure-specific configuration (flattened into the JSON).
    pub azure_config: Option<AzureEmbeddingConfig>,
    /// Additional configuration.
    pub extra: Metadata,
}

/// Tool rule for controlling agent behavior.
#[derive(Debug)]
pub enum ToolRule {
    /// Continue loop after tool execution.
    ContinueLoop {
        /// Tool name this rule applies to.
        tool_name: String,
        /// Optional prompt template.
        prompt_template: Option<String>,
    },
    /// Exit loop after tool execution.
    ExitLoop {
        /// Tool name this rule applies to.
        tool_name: String,
        /// Optional prompt template.
        prompt_template: Option<String>,
    },
    /// Terminal tool rule (deprecated, use exit_loop).
    Terminal {
        /// Tool name this rule applies to.
        tool_name: String,
        /// Optional prompt template.
        prompt_template: Option<String>,
    },
    /// Max count per step constraint.
    MaxCountPerStep {
        /// Tool name this rule applies to.
        tool_name: String,
        /// Optional prompt template.
        prompt_template: Option<String>,
        /// Maximum number of times this tool can be invoked in a single step.
        max_count_limit: u32,
    },
    /// Conditional tool mapping based on output.
    Conditional {
        /// Tool name this rule applies to.
        tool_name: String,
        /// Optional prompt template.
        prompt_template: Option<String>,
        /// The default child tool to be called.
        default_child: Option<String>,
        /// Mapping from tool output values to child tool names.
        child_output_mapping: StringMap,
        /// Whether to throw an error when output doesn't match any case.
        require_output_mapping: bool,
    },
    /// Child tool rule.
    Child {
        /// Tool name this rule applies to.
        tool_name: String,
        /// Optional prompt template.
        prompt_template: Option<String>,
        /// The name of the tool that can be a child of this tool.
        child_tool_name: String,
    },
    /// Parent tool rule.
    Parent {
        /// Tool name this rule applies to.
        tool_name: String,
        /// Optional prompt template.
        prompt_template: Option<String>,
        /// The name of the tool that can be a parent of this tool.
        parent_tool_name: String,
    },
    /// Required before exit rule.
    RequiredBeforeExit {
        /// Tool name this rule applies to.
        tool_name: String,
        /// Optional prompt template.
        prompt_template: Option<String>,
    },
    /// Init tool rule.
    Init {
        /// Tool name this rule applies to.
        tool_name: String,
        /// Optional prompt template.
        prompt_template: Option<String>,
    },
}

/// The tool a rule applies to.
pub open spec fn rule_tool_name(r: ToolRule) -> Seq<char> {
    match r {
        ToolRule::ContinueLoop { tool_name, .. } => tool_name@,
        ToolRule::ExitLoop { tool_name, .. } => tool_name@,
        ToolRule::Terminal { tool_name, .. } => tool_name@,
        ToolRule::MaxCountPerStep { tool_name, .. } => tool_name@,
        ToolRule::Conditional { tool_name, .. } => tool_name@,
        ToolRule::Child { tool_name, .. } => tool_name@,
        ToolRule::Parent { tool_name, .. } => tool_name@,
        ToolRule::RequiredBeforeExit { tool_name, .. } => tool_name@,
        ToolRule::Init { tool_name, .. } => tool_name@,
    }
}

/// The prompt template of a rule.
pub open spec fn rule_prompt_template(r: ToolRule) -> Option<String> {
    match r {
        ToolRule::ContinueLoop { prompt_template, .. } => prompt_template,
        ToolRule::ExitLoop { prompt_template, .. } => prompt_template,
        ToolRule::Terminal { prompt_template, .. } => prompt_template,
        ToolRule::MaxCountPerStep { prompt_template, .. } => prompt_template,
        ToolRule::Conditional { prompt_template, .. } => prompt_template,
        ToolRule::Child { prompt_template, .. } => prompt_template,
        ToolRule::Parent { prompt_template, .. } => prompt_template,
        ToolRule::RequiredBeforeExit { prompt_template, .. } => prompt_template,
        ToolRule::Init { prompt_template, .. } => prompt_template,
    }
}

/// The same rule with another prompt template.
pub open spec fn rule_with_template(r: ToolRule, t: Option<String>) -> ToolRule {
    match r {
        ToolRule::ContinueLoop { tool_name, .. } => ToolRule::ContinueLoop { tool_name, prompt_template: t },
        ToolRule::ExitLoop { tool_name, .. } => ToolRule::ExitLoop { tool_name, prompt_template: t },
        ToolRule::Terminal { tool_name, .. } => ToolRule::Terminal { tool_name, prompt_template: t },
        ToolRule::MaxCountPerStep { tool_name, max_count_limit, .. } => ToolRule::MaxCountPerStep {
            tool_name,
            prompt_template: t,
            max_count_limit,
        },
        ToolRule::Conditional { tool_name, default_child, child_output_mapping, require_output_mapping, .. } =>
            ToolRule::Conditional {
                tool_name,
                prompt_template: t,
                default_child,
                child_output_mapping,
                require_output_mapping,
            },
        ToolRule::Child { tool_name, child_tool_name, .. } => ToolRule::Child { tool_name, prompt_template: t, child_tool_name },
        ToolRule::Parent { tool_name, parent_tool_name, .. } => ToolRule::Parent { tool_name, prompt_template: t, parent_tool_name },
        ToolRule::RequiredBeforeExit { tool_name, .. } => ToolRule::RequiredBeforeExit { tool_name, prompt_template: t },
        ToolRule::Init { tool_name, .. } => ToolRule::Init { tool_name, prompt_template: t },
    }
}

/// Conditional tool rule configuration.
#[derive(Debug)]
pub struct ConditionalToolRule {
    /// Tool name this rule applies to.
    pub tool_name: String,
    /// Optional prompt template.
    pub prompt_template: Option<String>,
    /// The default child tool to be called.
    pub default_child: Option<String>,
    /// Mapping from tool output values to child tool names.
    pub child_output_mapping: StringMap,
    /// Whether to throw an error when output doesn't match any case.
    pub require_output_mapping: bool,
}

impl ConditionalToolRule {
    /// Add a mapping from output value to child tool name (replacing the child of an
    /// output already mapped).
    pub fn with_mapping(self, output: &str, child: &str) -> (r: Self)
        ensures
            r.child_output_mapping@ == entries_insert(self.child_output_mapping@, output@, child@),
            r.child_output_mapping.wf(),
            r.tool_name == self.tool_name,
            r.prompt_template == self.prompt_template,
            r.default_child == self.default_child,
            r.require_output_mapping == self.require_output_mapping,
    {
        let ConditionalToolRule { tool_name, prompt_template, default_child, mut child_output_mapping, require_output_mapping } = self;
        child_output_mapping.insert(output.to_string(), child.to_string());
        ConditionalToolRule { tool_name, prompt_template, default_child, child_output_mapping, require_output_mapping }
    }

    /// Convert to a ToolRule.
    pub fn build(self) -> (r: ToolRule)
        ensures
            r == (ToolRule::Conditional {
                tool_name: self.tool_name,
                prompt_template: self.prompt_template,
                default_child: self.default_child,
                child_output_mapping: self.child_output_mapping,
                require_output_mapping: self.require_output_mapping,
            }),
    {
        ToolRule::Conditional {
            tool_name: self.tool_name,
            prompt_template: self.prompt_template,
            default_child: self.default_child,
            child_output_mapping: self.child_output_mapping,
            require_output_mapping: self.require_output_mapping,
        }
    }
}

impl ToolRule {
    /// Create a continue loop rule.
    pub fn continue_loop(tool_name: &str) -> (r: Self)
        ensures
            r matches ToolRule::ContinueLoop { tool_name: t, prompt_template: None } && t@ == tool_name@,
    {
        ToolRule::ContinueLoop { tool_name: tool_name.to_string(), prompt_template: None }
    }

    /// Create an exit loop rule.
    pub fn exit_loop(tool_name: &str) -> (r: Self)
        ensures
            r matches ToolRule::ExitLoop { tool_name: t, prompt_template: None } && t@ == tool_name@,
    {
        ToolRule::ExitLoop { tool_name: tool_name.to_string(), prompt_template: None }
    }

    /// Create a terminal rule (deprecated, prefer exit_loop).
    pub fn terminal(tool_name: &str) -> (r: Self)
        ensures
            r matches ToolRule::Terminal { tool_name: t, prompt_template: None } && t@ == tool_name@,
    {
        ToolRule::Terminal { tool_name: tool_name.to_string(), prompt_template: None }
    }

    /// Create a max count per step rule.
    pub fn max_count_per_step(tool_name: &str, max_count_limit: u32) -> (r: Self)
        ensures
            r matches ToolRule::MaxCountPerStep { tool_name: t, prompt_template: None, max_count_limit: m }
                && t@ == tool_name@ && m == max_count_limit,
    {
        ToolRule::MaxCountPerStep { tool_name: tool_name.to_string(), prompt_template: None, max_count_limit }
    }

    /// Create a conditional tool rule builder: no template, no default child, no
    /// mappings, mapping not required.
    pub fn conditional(tool_name: &str) -> (r: ConditionalToolRule)
        ensures
            r.tool_name@ == tool_name@,
            r.prompt_template is None,
            r.default_child is None,
            r.child_output_mapping@.len() == 0,
            r.child_output_mapping.wf(),
            !r.require_output_mapping,
    {
        ConditionalToolRule {
            tool_name: tool_name.to_string(),
            prompt_template: None,
            default_child: None,
            child_output_mapping: StringMap::new(),
            require_output_mapping: false,
        }
    }

    /// Create a child tool rule.
    pub fn child(tool_name: &str, child_tool_name: &str) -> (r: Self)
        ensures
            r matches ToolRule::Child { tool_name: t, prompt_template: None, child_tool_name: c }
                && t@ == tool_name@ && c@ == child_tool_name@,
    {
        ToolRule::Child {
            tool_name: tool_name.to_string(),
            prompt_template: None,
            child_tool_name: child_tool_name.to_string(),
        }
    }

    /// Create a parent tool rule.
    pub fn parent(tool_name: &str, parent_tool_name: &str) -> (r: Self)
        ensures
            r matches ToolRule::Parent { tool_name: t, prompt_template: None, parent_tool_name: p }
                && t@ == tool_name@ && p@ == parent_tool_name@,
    {
        ToolRule::Parent {
            tool_name: tool_name.to_string(),
            prompt_template: None,
            parent_tool_name: parent_tool_name.to_string(),
        }
    }

    /// Create a required before exit rule.
    pub fn required_before_exit(tool_name: &str) -> (r: Self)
        ensures
            r matches ToolRule::RequiredBeforeExit { tool_name: t, prompt_template: None } && t@ == tool_name@,
    {
        ToolRule::RequiredBeforeExit { tool_name: tool_name.to_string(), prompt_template: None }
    }

    /// Create an init rule.
    pub fn init(tool_name: &str) -> (r: Self)
        ensures
            r matches ToolRule::Init { tool_name: t, prompt_template: None } && t@ == tool_name@,
    {
        ToolRule::Init { tool_name: tool_name.to_string(), prompt_template: None }
    }

    /// Add a prompt template to this rule; every other part of the rule is kept.
    pub fn with_prompt_template(self, template: &str) -> (r: Self)
        ensures
            rule_prompt_template(r) matches Some(t) && t@ == template@,
            r == rule_with_template(self, rule_prompt_template(r)),
    {
        let t = Some(template.to_string());
        match self {
            ToolRule::ContinueLoop { tool_name, .. } => ToolRule::ContinueLoop { tool_name, prompt_template: t },
            ToolRule::ExitLoop { tool_name, .. } => ToolRule::ExitLoop { tool_name, prompt_template: t },
            ToolRule::Terminal { tool_name, .. } => ToolRule::Terminal { tool_name, prompt_template: t },
            ToolRule::MaxCountPerStep { tool_name, max_count_limit, .. } => ToolRule::MaxCountPerStep {
                tool_name,
                prompt_template: t,
                max_count_limit,
            },
            ToolRule::Conditional { tool_name, default_child, child_output_mapping, require_output_mapping, .. } =>
                ToolRule::Conditional {
                    tool_name,
                    prompt_template: t,
                    default_child,
                    child_output_mapping,
                    require_output_mapping,
                },
            ToolRule::Child { tool_name, child_tool_name, .. } => ToolRule::Child { tool_name, prompt_template: t, child_tool_name },
            ToolRule::Parent { tool_name, parent_tool_name, .. } => ToolRule::Parent { tool_name, prompt_template: t, parent_tool_name },
            ToolRule::RequiredBeforeExit { tool_name, .. } => ToolRule::RequiredBeforeExit { tool_name, prompt_template: t },
            ToolRule::Init { tool_name, .. } => ToolRule::Init { tool_name, prompt_template: t },
        }
    }

    /// The tool this rule applies to.
    pub fn tool_name(&self) -> (r: &str)
        ensures
            r@ == rule_tool_name(*self),
    {
        match self {
            ToolRule::ContinueLoop { tool_name, .. } => tool_name.as_str(),
            ToolRule::ExitLoop { tool_name, .. } => tool_name.as_str(),
            ToolRule::Terminal { tool_name, .. } => tool_name.as_str(),
            ToolRule::MaxCountPerStep { tool_name, .. } => tool_name.as_str(),
            ToolRule::Conditional { tool_name, .. } => tool_name.as_str(),
            ToolRule::Child { tool_name, .. } => tool_name.as_str(),
            ToolRule::Parent { tool_name, .. } => tool_name.as_str(),
            ToolRule::RequiredBeforeExit { tool_name, .. } => tool_name.as_str(),
            ToolRule::Init { tool_name, .. } => tool_name.as_str(),
        }
    }
}

/// Law: setting a prompt template keeps the tool a rule applies to, and setting a
/// second template replaces the first.
pub proof fn law_prompt_template_replaces(r: ToolRule, t1: Option<String>, t2: Option<String>)
    ensures
        rule_tool_name(rule_with_template(r, t1)) == rule_tool_name(r),
        rule_prompt_template(rule_with_template(r, t1)) == t1,
        rule_with_template(rule_with_template(r, t1), t2) == rule_with_template(r, t2),
{
}

/// Response format type.
#[derive(PartialEq, Eq, Structural, Clone, Copy, Debug)]
pub enum ResponseFormatType {
    /// Text response.
    Text,
    /// JSON object response.
    JsonObject,
}

impl Default for ResponseFormatType {
    fn default() -> (r: Self)
        ensures
            r == ResponseFormatType::Text,
    {
        ResponseFormatType::Text
    }
}

/// Response format configuration.
#[derive(Debug)]
pub struct ResponseFormat {
    /// Response type.
    pub format_type: ResponseFormatType,
    /// JSON schema for validation (when type is json_object).
    pub json_schema: Option<JsonDoc>,
}

impl ResponseFormat {
    /// Create a text response format.
    pub fn text() -> (r: Self)
        ensures
            r.format_type == ResponseFormatType::Text,
            r.json_schema is None,
    {
        ResponseFormat { format_type: ResponseFormatType::Text, json_schema: None }
    }

    /// Create a JSON response format with optional schema.
    pub fn json(schema: Option<JsonDoc>) -> (r: Self)
        ensures
            r.format_type == ResponseFormatType::JsonObject,
            r.json_schema == schema,
    {
        ResponseFormat { format_type: ResponseFormatType::JsonObject, json_schema: schema }
    }

    /// Create a JSON response format with a schema from a JSON string; a text that is
    /// not JSON gives a serialization error carrying the parser's description.
    pub fn json_with_schema(schema_str: &str) -> (r: Result<Self, crate::error::LettaError>)
        ensures
            match crate::json::spec_json_parse(schema_str@) {
                Some(d) => r matches Ok(f) && f.format_type == ResponseFormatType::JsonObject
                    && (f.json_schema matches Some(s) && s@ == d),
                None => r matches Err(crate::error::LettaError::Serde { .. }),
            },
    {
        match crate::json::json_parse(schema_str) {
            Ok(d) => Ok(ResponseFormat { format_type: ResponseFormatType::JsonObject, json_schema: Some(d) }),
            Err(e) => Err(crate::error::LettaError::Serde { message: crate::json::json_error_text(&e) }),
        }
    }
}

} // verus!

verus! {

/// Environment variable for agent tool execution.
#[derive(Debug)]
pub struct AgentEnvironmentVariable {
    /// The ID of the user that created this object.
    pub created_by_id: Option<LettaId>,
    /// The ID of the user that last updated this object.
    pub last_updated_by_id: Option<LettaId>,
    /// When the object was created.
    pub created_at: Option<String>,
    /// When the object was last updated.
    pub updated_at: Option<String>,
    /// The unique identifier of the agent environment variable.
    pub id: Option<LettaId>,
    /// The name of the environment variable.
    pub key: String,
    /// The value of the environment variable.
    pub value: String,
    /// An optional description of the environment variable.
    pub description: Option<String>,
    /// The ID of the agent this environment variable belongs to.
    pub agent_id: LettaId,
}

/// Agent memory configuration.
#[derive(Debug)]
pub struct AgentMemory {
    /// Memory blocks.
    pub blocks: Vec<Block>,
    /// File-based memory blocks.
    pub file_blocks: Vec<Block>,
    /// Prompt template.
    pub prompt_template: Option<String>,
}

/// Tool reference for agents.
#[derive(Debug)]
pub enum ToolReference {
    /// Tool ID reference.
    Id(String),
    /// Full tool object.
    Object(JsonDoc),
}

/// Agent state and configuration.
#[derive(Debug)]
pub struct AgentState {
    /// Unique identifier for the agent.
    pub id: LettaId,
    /// Agent name.
    pub name: String,
    /// System prompt.
    pub system: Option<String>,
    /// Agent type.
    pub agent_type: AgentType,
    /// LLM configuration.
    pub llm_config: Option<LLMConfig>,
    /// Embedding configuration.
    pub embedding_config: Option<EmbeddingConfig>,
    /// Agent memory.
    pub memory: Option<AgentMemory>,
    /// Available tools.
    pub tools: Vec<ToolReference>,
    /// Data sources.
    pub sources: Vec<JsonDoc>,
    /// Agent tags.
    pub tags: Vec<String>,
    /// Agent description.
    pub description: Option<String>,
    /// Agent metadata.
    pub metadata: Option<Metadata>,
    /// Project ID.
    pub project_id: Option<LettaId>,
    /// Created by user ID.
    pub created_by_id: Option<LettaId>,
    /// Last updated by user ID.
    pub last_updated_by_id: Option<LettaId>,
    /// When the agent was created.
    pub created_at: String,
    /// When the agent was last updated.
    pub updated_at: String,
    /// Tool rules.
    pub tool_rules: Option<Vec<ToolRule>>,
    /// Message IDs.
    pub message_ids: Vec<LettaId>,
    /// Configuration for multi-agent group participation.
    pub multi_agent_group: Option<JsonDoc>,
    /// Template ID.
    pub template_id: Option<LettaId>,
    /// Base template ID.
    pub base_template_id: Option<LettaId>,
    /// Identity IDs.
    pub identity_ids: Option<Vec<LettaId>>,
    /// Tool execution environment variables.
    pub tool_exec_environment_variables: Option<Vec<AgentEnvironmentVariable>>,
    /// Organization ID.
    pub organization_id: Option<LettaId>,
    /// Timezone.
    pub timezone: Option<String>,
    /// Last run completion time.
    pub last_run_completion: Option<String>,
    /// Last run duration in milliseconds.
    pub last_run_duration_ms: Option<u64>,
    /// Whether to enable sleeptime mode for the agent.
    pub enable_sleeptime: Option<bool>,
    /// Response format configuration.
    pub response_format: Option<ResponseFormat>,
    /// Message buffer autoclear setting.
    pub message_buffer_autoclear: Option<bool>,
}

/// Request to create a new agent.
#[derive(Debug)]
pub struct CreateAgentRequest {
    /// Agent name.
    pub name: Option<String>,
    /// System prompt.
    pub system: Option<String>,
    /// Agent type.
    pub agent_type: Option<AgentType>,
    /// LLM configuration.
    pub llm_config: Option<LLMConfig>,
    /// Embedding configuration.
    pub embedding_config: Option<EmbeddingConfig>,
    /// Memory blocks.
    pub memory_blocks: Option<Vec<Block>>,
    /// Tools to attach.
    pub tools: Option<Vec<String>>,
    /// Tool IDs to attach (alternative to tools).
    pub tool_ids: Option<Vec<LettaId>>,
    /// Source IDs to attach.
    pub source_ids: Option<Vec<LettaId>>,
    /// Agent tags.
    pub tags: Option<Vec<String>>,
    /// Agent description.
    pub description: Option<String>,
    /// Agent metadata.
    pub metadata: Option<Metadata>,
    /// Agent timezone (IANA format).
    pub timezone: Option<String>,
    /// Include base tools.
    pub include_base_tools: Option<bool>,
    /// Include multi-agent tools.
    pub include_multi_agent_tools: Option<bool>,
    /// Include base tool rules.
    pub include_base_tool_rules: Option<bool>,
    /// Include default source.
    pub include_default_source: Option<bool>,
    /// Tool rules to apply.
    pub tool_rules: Option<Vec<ToolRule>>,
    /// Initial message sequence.
    pub initial_message_sequence: Option<Vec<JsonDoc>>,
    /// Tool execution environment variables.
    pub tool_exec_environment_variables: Option<StringMap>,
    /// Response format configuration.
    pub response_format: Option<ResponseFormat>,
    /// Enable reasoner.
    pub enable_reasoner: Option<bool>,
    /// Whether to automatically clear the message buffer.
    pub message_buffer_autoclear: Option<bool>,
    /// Block IDs to attach.
    pub block_ids: Option<Vec<LettaId>>,
    /// Model shorthand (alternative to llm_config).
    pub model: Option<String>,
    /// Embedding shorthand (alternative to embedding_config).
    pub embedding: Option<String>,
    /// Context window limit shorthand.
    pub context_window_limit: Option<u32>,
    /// Embedding chunk size shorthand.
    pub embedding_chunk_size: Option<u32>,
    /// Max tokens shorthand.
    pub max_tokens: Option<u32>,
    /// Max reasoning tokens.
    pub max_reasoning_tokens: Option<u32>,
    /// Create from template.
    pub from_template: Option<String>,
    /// Mark as template.
    pub template: Option<bool>,
    /// Memory variables.
    pub memory_variables: Option<StringMap>,
    /// Project ID.
    pub project_id: Option<LettaId>,
    /// Template ID.
    pub template_id: Option<LettaId>,
    /// Base template ID.
    pub base_template_id: Option<LettaId>,
    /// Identity IDs.
    pub identity_ids: Option<Vec<LettaId>>,
    /// Whether to enable sleeptime mode for the agent.
    pub enable_sleeptime: Option<bool>,
}

impl Default for CreateAgentRequest {
    /// Every field empty.
    fn default() -> (r: Self)
        ensures
            r.name is None,
            r.system is None,
            r.agent_type is None,
            r.llm_config is None,
            r.embedding_config is None,
            r.memory_blocks is None,
            r.tools is None,
            r.tool_ids is None,
            r.source_ids is None,
            r.tags is None,
            r.description is None,
            r.metadata is None,
            r.timezone is None,
            r.include_base_tools is None,
            r.include_multi_agent_tools is None,
            r.include_base_tool_rules is None,
            r.include_default_source is None,
            r.tool_rules is None,
            r.initial_message_sequence is None,
            r.tool_exec_environment_variables is None,
            r.response_format is None,
            r.enable_reasoner is None,
            r.message_buffer_autoclear is None,
            r.block_ids is None,
            r.model is None,
            r.embedding is None,
            r.context_window_limit is None,
            r.embedding_chunk_size is None,
            r.max_tokens is None,
            r.max_reasoning_tokens is None,
            r.from_template is None,
            r.template is None,
            r.memory_variables is None,
            r.project_id is None,
            r.template_id is None,
            r.base_template_id is None,
            r.identity_ids is None,
            r.enable_sleeptime is None,
    {
        CreateAgentRequest {
            name: None,
            system: None,
            agent_type: None,
            llm_config: None,
            embedding_config: None,
            memory_blocks: None,
            tools: None,
            tool_ids: None,
            source_ids: None,
            tags: None,
            description: None,
            metadata: None,
            timezone: None,
            include_base_tools: None,
            include_multi_agent_tools: None,
            include_base_tool_rules: None,
            include_default_source: None,
            tool_rules: None,
            initial_message_sequence: None,
            tool_exec_environment_variables: None,
            response_format: None,
            enable_reasoner: None,
            message_buffer_autoclear: None,
            block_ids: None,
            model: None,
            embedding: None,
            context_window_limit: None,
            embedding_chunk_size: None,
            max_tokens: None,
            max_reasoning_tokens: None,
            from_template: None,
            template: None,
            memory_variables: None,
            project_id: None,
            template_id: None,
            base_template_id: None,
            identity_ids: None,
            enable_sleeptime: None,
        }
    }
}

/// Request to update an agent.
#[derive(Debug)]
pub struct UpdateAgentRequest {
    /// Agent name.
    pub name: Option<String>,
    /// System prompt.
    pub system: Option<String>,
    /// Agent type.
    pub agent_type: Option<AgentType>,
    /// LLM configuration.
    pub llm_config: Option<LLMConfig>,
    /// Embedding configuration.
    pub embedding_config: Option<EmbeddingConfig>,
    /// Agent tags.
    pub tags: Option<Vec<String>>,
    /// Agent description.
    pub description: Option<String>,
    /// Agent metadata.
    pub metadata: Option<Metadata>,
}

impl Default for UpdateAgentRequest {
    /// Every field empty.
    fn default() -> (r: Self)
        ensures
            r.name is None,
            r.system is None,
            r.agent_type is None,
            r.llm_config is None,
            r.embedding_config is None,
            r.tags is None,
            r.description is None,
            r.metadata is None,
    {
        UpdateAgentRequest {
            name: None,
            system: None,
            agent_type: None,
            llm_config: None,
            embedding_config: None,
            tags: None,
            description: None,
            metadata: None,
        }
    }
}

/// Request parameters for importing an agent from file.
#[derive(Debug)]
pub struct ImportAgentRequest {
    /// Whether to append a copy suffix to the agent name if it already exists.
    pub append_copy_suffix: Option<bool>,
    /// Whether to override existing tools with the same name.
    pub override_existing_tools: Option<bool>,
    /// The project ID to associate the uploaded agent with.
    pub project_id: Option<LettaId>,
    /// If set to True, strips all messages from the agent before importing.
    pub strip_messages: Option<bool>,
}

impl Default for ImportAgentRequest {
    /// Every field empty.
    fn default() -> (r: Self)
        ensures
            r.append_copy_suffix is None,
            r.override_existing_tools is None,
            r.project_id is None,
            r.strip_messages is None,
    {
        ImportAgentRequest {
            append_copy_suffix: None,
            override_existing_tools: None,
            project_id: None,
            strip_messages: None,
        }
    }
}

/// A hexadecimal digit, upper case.
pub open spec fn hex_digit(n: int) -> char {
    if n < 10 {
        ('0' as int + n) as char
    } else {
        ('A' as int + n - 10) as char
    }
}

/// A byte written as `%` and two upper-case hexadecimal digits.
pub open spec fn percent_byte(b: int) -> Seq<char> {
    seq!['%', hex_digit(b / 16), hex_digit(b % 16)]
}

/// The UTF-8 bytes of a character.
pub open spec fn utf8_bytes(c: char) -> Seq<int> {
    let n = c as int;
    if n < 0x80 {
        seq![n]
    } else if n < 0x800 {
        seq![0xC0 + n / 64, 0x80 + n % 64]
    } else if n < 0x10000 {
        seq![0xE0 + n / 4096, 0x80 + (n / 64) % 64, 0x80 + n % 64]
    } else {
        seq![0xF0 + n / 262144, 0x80 + (n / 4096) % 64, 0x80 + (n / 64) % 64, 0x80 + n % 64]
    }
}

/// Characters that form encoding leaves as they are: ASCII letters and digits, and
/// `*`, `-`, `.` and `_`.
pub open spec fn form_unchanged(c: char) -> bool {
    ('0' <= c && c <= '9') || ('A' <= c && c <= 'Z') || ('a' <= c && c <= 'z') || c == '*'
        || c == '-' || c == '.' || c == '_'
}

/// One character form-encoded: kept, a space as `+`, else each UTF-8 byte as `%XX`.
pub open spec fn form_encode_char(c: char) -> Seq<char> {
    if form_unchanged(c) {
        seq![c]
    } else if c == ' ' {
        seq!['+']
    } else {
        utf8_bytes(c).map_values(|b: int| percent_byte(b)).flatten()
    }
}

/// A text form-encoded (`application/x-www-form-urlencoded`).
pub open spec fn form_encode(s: Seq<char>) -> Seq<char> {
    s.map_values(|c: char| form_encode_char(c)).flatten()
}

/// A list of text pairs form-encoded: `key=value` for each, joined by `&`.
pub open spec fn form_encode_pairs(pairs: Seq<(Seq<char>, Seq<char>)>) -> Seq<char>
    decreases pairs.len(),
{
    if pairs.len() == 0 {
        Seq::empty()
    } else {
        let last = form_encode(pairs.last().0) + "="@ + form_encode(pairs.last().1);
        if pairs.len() == 1 {
            last
        } else {
            form_encode_pairs(pairs.drop_last()) + "&"@ + last
        }
    }
}

/// `serde_urlencoded::to_string` on a list of text pairs: `key=value` for each pair,
/// joined by `&`, each part form-encoded. Text pairs never make it fail; the empty
/// text would stand for a failure.
#[verifier::external_body]
fn urlencode_pairs(pairs: &Vec<(String, String)>) -> (r: String)
    ensures
        r@ == form_encode_pairs(crate::json::entries_view(pairs@)),
{
    serde_urlencoded::to_string(pairs).unwrap_or_default()
}

/// The text of a boolean in a query.
pub open spec fn bool_text(b: bool) -> Seq<char> {
    if b {
        "true"@
    } else {
        "false"@
    }
}

/// The query of an import: each option that is set, in the order of the fields.
pub open spec fn import_query(r: ImportAgentRequest) -> Seq<(Seq<char>, Seq<char>)> {
    let a = match r.append_copy_suffix {
        Some(b) => seq![("append_copy_suffix"@, bool_text(b))],
        None => Seq::empty(),
    };
    let o = match r.override_existing_tools {
        Some(b) => seq![("override_existing_tools"@, bool_text(b))],
        None => Seq::empty(),
    };
    let p = match r.project_id {
        Some(id) => seq![("project_id"@, crate::types::common::id_text(id@))],
        None => Seq::empty(),
    };
    let s = match r.strip_messages {
        Some(b) => seq![("strip_messages"@, bool_text(b))],
        None => Seq::empty(),
    };
    a + o + p + s
}

fn bool_string(b: bool) -> (r: String)
    ensures
        r@ == bool_text(b),
{
    if b {
        String::from_str("true")
    } else {
        String::from_str("false")
    }
}

impl ImportAgentRequest {
    /// The query pairs of this import: each option that is set, in order.
    pub fn query_pairs(&self) -> (r: Vec<(String, String)>)
        ensures
            crate::json::entries_view(r@) == import_query(*self),
    {
        let mut v: Vec<(String, String)> = Vec::new();
        if let Some(b) = self.append_copy_suffix {
            v.push((String::from_str("append_copy_suffix"), bool_string(b)));
        }
        if let Some(b) = self.override_existing_tools {
            v.push((String::from_str("override_existing_tools"), bool_string(b)));
        }
        if let Some(id) = &self.project_id {
            v.push((String::from_str("project_id"), id.to_string()));
        }
        if let Some(b) = self.strip_messages {
            v.push((String::from_str("strip_messages"), bool_string(b)));
        }
        assert(crate::json::entries_view(v@) =~= import_query(*self));
        v
    }
}

/// The path that imports an agent file: `v1/agents/import`, followed by `?` and the
/// encoded query when some option is set.
pub fn import_agent_path(request: &ImportAgentRequest) -> (r: String)
    ensures
        r@ == if import_query(*request).len() == 0 {
            "v1/agents/import"@
        } else {
            "v1/agents/import?"@ + form_encode_pairs(import_query(*request))
        },
{
    let pairs = request.query_pairs();
    if pairs.len() == 0 {
        String::from_str("v1/agents/import")
    } else {
        let mut path = String::from_str("v1/agents/import?");
        let q = urlencode_pairs(&pairs);
        path.append(q.as_str());
        path
    }
}

/// Search response for agents.
#[derive(Debug)]
pub struct AgentsSearchResponse {
    /// List of matching agents.
    pub agents: Vec<AgentState>,
    /// Cursor for pagination.
    pub next_cursor: Option<String>,
}

/// Search request for agents.
#[derive(Debug)]
pub struct AgentsSearchRequest {
    /// Search criteria (simplified for now).
    pub search: Option<Vec<String>>,
    /// Project ID filter.
    pub project_id: Option<LettaId>,
    /// Search combinator (only "AND" supported).
    pub combinator: Option<String>,
    /// Maximum number of results.
    pub limit: Option<u32>,
    /// Pagination cursor.
    pub after: Option<String>,
    /// Sort field.
    pub sort_by: Option<String>,
    /// Sort order.
    pub ascending: Option<bool>,
}

impl Default for AgentsSearchRequest {
    /// Every field empty.
    fn default() -> (r: Self)
        ensures
            r.search is None,
            r.project_id is None,
            r.combinator is None,
            r.limit is None,
            r.after is None,
            r.sort_by is None,
            r.ascending is None,
    {
        AgentsSearchRequest {
            search: None,
            project_id: None,
            combinator: None,
            limit: None,
            after: None,
            sort_by: None,
            ascending: None,
        }
    }
}

/// Query parameters for listing agents.
#[derive(Debug)]
pub struct ListAgentsParams {
    /// Filter by name.
    pub name: Option<String>,
    /// Filter by tags.
    pub tags: Option<Vec<String>>,
    /// Whether to match all tags.
    pub match_all_tags: Option<bool>,
    /// Pagination cursor (before).
    pub before: Option<String>,
    /// Pagination cursor (after).
    pub after: Option<String>,
    /// Pagination limit.
    pub limit: Option<u32>,
    /// Search query text.
    pub query_text: Option<String>,
    /// Filter by project ID.
    pub project_id: Option<LettaId>,
    /// Filter by template ID.
    pub template_id: Option<LettaId>,
    /// Filter by base template ID.
    pub base_template_id: Option<LettaId>,
    /// Filter by identity ID.
    pub identity_id: Option<LettaId>,
    /// Search by identifier keys.
    pub identifier_keys: Option<Vec<String>>,
    /// Include relationships.
    pub include_relationships: Option<Vec<String>>,
    /// Sort order (ascending).
    pub ascending: Option<bool>,
    /// Sort by field.
    pub sort_by: Option<String>,
}

impl Default for ListAgentsParams {
    /// Every field empty.
    fn default() -> (r: Self)
        ensures
            r.name is None,
            r.tags is None,
            r.match_all_tags is None,
            r.before is None,
            r.after is None,
            r.limit is None,
            r.query_text is None,
            r.project_id is None,
            r.template_id is None,
            r.base_template_id is None,
            r.identity_id is None,
            r.identifier_keys is None,
            r.include_relationships is None,
            r.ascending is None,
            r.sort_by is None,
    {
        ListAgentsParams {
            name: None,
            tags: None,
            match_all_tags: None,
            before: None,
            after: None,
            limit: None,
            query_text: None,
            project_id: None,
            template_id: None,
            base_template_id: None,
            identity_id: None,
            identifier_keys: None,
            include_relationships: None,
            ascending: None,
            sort_by: None,
        }
    }
}

/// A request with no field set.
pub open spec fn blank_create_agent_request() -> CreateAgentRequest {
    CreateAgentRequest {
        name: None,
        system: None,
        agent_type: None,
        llm_config: None,
        embedding_config: None,
        memory_blocks: None,
        tools: None,
        tool_ids: None,
        source_ids: None,
        tags: None,
        description: None,
        metadata: None,
        timezone: None,
        include_base_tools: None,
        include_multi_agent_tools: None,
        include_base_tool_rules: None,
        include_default_source: None,
        tool_rules: None,
        initial_message_sequence: None,
        tool_exec_environment_variables: None,
        response_format: None,
        enable_reasoner: None,
        message_buffer_autoclear: None,
        block_ids: None,
        model: None,
        embedding: None,
        context_window_limit: None,
        embedding_chunk_size: None,
        max_tokens: None,
        max_reasoning_tokens: None,
        from_template: None,
        template: None,
        memory_variables: None,
        project_id: None,
        template_id: None,
        base_template_id: None,
        identity_ids: None,
        enable_sleeptime: None,
    }
}

/// The items of an optional list, none when it is absent.
pub open spec fn items_or_empty<T>(o: Option<Vec<T>>) -> Seq<T> {
    match o {
        Some(v) => v@,
        None => Seq::empty(),
    }
}

/// The entries of an optional map, none when it is absent.
pub open spec fn map_or_empty(o: Option<StringMap>) -> Seq<(Seq<char>, Seq<char>)> {
    match o {
        Some(m) => m@,
        None => Seq::empty(),
    }
}

impl CreateAgentRequest {
    /// Create a new agent request builder, with no field set.
    pub fn builder() -> (r: CreateAgentRequestBuilder)
        ensures
            r.draft() == blank_create_agent_request(),
    {
        CreateAgentRequestBuilder { request: CreateAgentRequest::default() }
    }
}

/// Builder for [`CreateAgentRequest`].
#[derive(Debug)]
pub struct CreateAgentRequestBuilder {
    request: CreateAgentRequest,
}

impl Default for CreateAgentRequestBuilder {
    /// A builder with no field set.
    fn default() -> (r: Self)
        ensures
            r.draft() == blank_create_agent_request(),
    {
        CreateAgentRequestBuilder { request: CreateAgentRequest::default() }
    }
}

impl CreateAgentRequestBuilder {
    /// The request built so far.
    pub closed spec fn draft(self) -> CreateAgentRequest {
        self.request
    }


    /// Set the agent name.
    pub fn name(self, name: &str) -> (r: Self)
        ensures
            r.draft() == (CreateAgentRequest { name: r.draft().name, ..self.draft() }),
            r.draft().name matches Some(x) && x@ == name@,
    {
        let mut request = self.request;
        request.name = Some(String::from_str(name));
        CreateAgentRequestBuilder { request }
    }


    /// Set the system prompt.
    pub fn system(self, system: &str) -> (r: Self)
        ensures
            r.draft() == (CreateAgentRequest { system: r.draft().system, ..self.draft() }),
            r.draft().system matches Some(x) && x@ == system@,
    {
        let mut request = self.request;
        request.system = Some(String::from_str(system));
        CreateAgentRequestBuilder { request }
    }


    /// Set the agent type.
    pub fn agent_type(self, agent_type: AgentType) -> (r: Self)
        ensures
            r.draft() == (CreateAgentRequest { agent_type: Some(agent_type), ..self.draft() }),
    {
        let mut request = self.request;
        request.agent_type = Some(agent_type);
        CreateAgentRequestBuilder { request }
    }


    /// Set the LLM configuration.
    pub fn llm_config(self, llm_config: LLMConfig) -> (r: Self)
        ensures
            r.draft() == (CreateAgentRequest { llm_config: Some(llm_config), ..self.draft() }),
    {
        let mut request = self.request;
        request.llm_config = Some(llm_config);
        CreateAgentRequestBuilder { request }
    }


    /// Set the embedding configuration.
    pub fn embedding_config(self, embedding_config: EmbeddingConfig) -> (r: Self)
        ensures
            r.draft() == (CreateAgentRequest { embedding_config: Some(embedding_config), ..self.draft() }),
    {
        let mut request = self.request;
        request.embedding_config = Some(embedding_config);
        CreateAgentRequestBuilder { request }
    }


    /// Set the memory blocks.
    pub fn memory_blocks(self, memory_blocks: Vec<Block>) -> (r: Self)
        ensures
            r.draft() == (CreateAgentRequest { memory_blocks: Some(memory_blocks), ..self.draft() }),
    {
        let mut request = self.request;
        request.memory_blocks = Some(memory_blocks);
        CreateAgentRequestBuilder { request }
    }


    /// Set the tools.
    pub fn tools(self, tools: Vec<String>) -> (r: Self)
        ensures
            r.draft() == (CreateAgentRequest { tools: Some(tools), ..self.draft() }),
    {
        let mut request = self.request;
        request.tools = Some(tools);
        CreateAgentRequestBuilder { request }
    }


    /// Set the tags.
    pub fn tags(self, tags: Vec<String>) -> (r: Self)
        ensures
            r.draft() == (CreateAgentRequest { tags: Some(tags), ..self.draft() }),
    {
        let mut request = self.request;
        request.tags = Some(tags);
        CreateAgentRequestBuilder { request }
    }


    /// Set the description.
    pub fn description(self, description: &str) -> (r: Self)
        ensures
            r.draft() == (CreateAgentRequest { description: r.draft().description, ..self.draft() }),
            r.draft().description matches Some(x) && x@ == description@,
    {
        let mut request = self.request;
        request.description = Some(String::from_str(description));
        CreateAgentRequestBuilder { request }
    }


    /// Set the timezone.
    pub fn timezone(self, timezone: &str) -> (r: Self)
        ensures
            r.draft() == (CreateAgentRequest { timezone: r.draft().timezone, ..self.draft() }),
            r.draft().timezone matches Some(x) && x@ == timezone@,
    {
        let mut request = self.request;
        request.timezone = Some(String::from_str(timezone));
        CreateAgentRequestBuilder { request }
    }


    /// Set whether to include base tools.
    pub fn include_base_tools(self, include_base_tools: bool) -> (r: Self)
        ensures
            r.draft() == (CreateAgentRequest { include_base_tools: Some(include_base_tools), ..self.draft() }),
    {
        let mut request = self.request;
        request.include_base_tools = Some(include_base_tools);
        CreateAgentRequestBuilder { request }
    }


    /// Set the tool rules.
    pub fn tool_rules(self, tool_rules: Vec<ToolRule>) -> (r: Self)
        ensures
            r.draft() == (CreateAgentRequest { tool_rules: Some(tool_rules), ..self.draft() }),
    {
        let mut request = self.request;
        request.tool_rules = Some(tool_rules);
        CreateAgentRequestBuilder { request }
    }


    /// Set the initial message sequence.
    pub fn initial_message_sequence(self, initial_message_sequence: Vec<JsonDoc>) -> (r: Self)
        ensures
            r.draft() == (CreateAgentRequest { initial_message_sequence: Some(initial_message_sequence), ..self.draft() }),
    {
        let mut request = self.request;
        request.initial_message_sequence = Some(initial_message_sequence);
        CreateAgentRequestBuilder { request }
    }


    /// Set the tool execution environment variables.
    pub fn tool_exec_environment_variables(self, tool_exec_environment_variables: StringMap) -> (r: Self)
        ensures
            r.draft() == (CreateAgentRequest { tool_exec_environment_variables: Some(tool_exec_environment_variables), ..self.draft() }),
    {
        let mut request = self.request;
        request.tool_exec_environment_variables = Some(tool_exec_environment_variables);
        CreateAgentRequestBuilder { request }
    }


    /// Set the model handle (shorthand for an LLM configuration).
    pub fn model(self, model: &str) -> (r: Self)
        ensures
            r.draft() == (CreateAgentRequest { model: r.draft().model, ..self.draft() }),
            r.draft().model matches Some(x) && x@ == model@,
    {
        let mut request = self.request;
        request.model = Some(String::from_str(model));
        CreateAgentRequestBuilder { request }
    }


    /// Set the embedding handle (shorthand for an embedding configuration).
    pub fn embedding(self, embedding: &str) -> (r: Self)
        ensures
            r.draft() == (CreateAgentRequest { embedding: r.draft().embedding, ..self.draft() }),
            r.draft().embedding matches Some(x) && x@ == embedding@,
    {
        let mut request = self.request;
        request.embedding = Some(String::from_str(embedding));
        CreateAgentRequestBuilder { request }
    }


    /// Set the tool IDs.
    pub fn tool_ids(self, tool_ids: Vec<LettaId>) -> (r: Self)
        ensures
            r.draft() == (CreateAgentRequest { tool_ids: Some(tool_ids), ..self.draft() }),
    {
        let mut request = self.request;
        request.tool_ids = Some(tool_ids);
        CreateAgentRequestBuilder { request }
    }


    /// Set the source IDs.
    pub fn source_ids(self, source_ids: Vec<LettaId>) -> (r: Self)
        ensures
            r.draft() == (CreateAgentRequest { source_ids: Some(source_ids), ..self.draft() }),
    {
        let mut request = self.request;
        request.source_ids = Some(source_ids);
        CreateAgentRequestBuilder { request }
    }


    /// Set the metadata.
    pub fn metadata(self, metadata: Metadata) -> (r: Self)
        ensures
            r.draft() == (CreateAgentRequest { metadata: Some(metadata), ..self.draft() }),
    {
        let mut request = self.request;
        request.metadata = Some(metadata);
        CreateAgentRequestBuilder { request }
    }


    /// Set whether to include multi-agent tools.
    pub fn include_multi_agent_tools(self, include_multi_agent_tools: bool) -> (r: Self)
        ensures
            r.draft() == (CreateAgentRequest { include_multi_agent_tools: Some(include_multi_agent_tools), ..self.draft() }),
    {
        let mut request = self.request;
        request.include_multi_agent_tools = Some(include_multi_agent_tools);
        CreateAgentRequestBuilder { request }
    }


    /// Set whether to include base tool rules.
    pub fn include_base_tool_rules(self, include_base_tool_rules: bool) -> (r: Self)
        ensures
            r.draft() == (CreateAgentRequest { include_base_tool_rules: Some(include_base_tool_rules), ..self.draft() }),
    {
        let mut request = self.request;
        request.include_base_tool_rules = Some(include_base_tool_rules);
        CreateAgentRequestBuilder { request }
    }


    /// Set whether to include the default source.
    pub fn include_default_source(self, include_default_source: bool) -> (r: Self)
        ensures
            r.draft() == (CreateAgentRequest { include_default_source: Some(include_default_source), ..self.draft() }),
    {
        let mut request = self.request;
        request.include_default_source = Some(include_default_source);
        CreateAgentRequestBuilder { request }
    }


    /// Set the response format.
    pub fn response_format(self, response_format: ResponseFormat) -> (r: Self)
        ensures
            r.draft() == (CreateAgentRequest { response_format: Some(response_format), ..self.draft() }),
    {
        let mut request = self.request;
        request.response_format = Some(response_format);
        CreateAgentRequestBuilder { request }
    }


    /// Set whether to enable the reasoner.
    pub fn enable_reasoner(self, enable_reasoner: bool) -> (r: Self)
        ensures
            r.draft() == (CreateAgentRequest { enable_reasoner: Some(enable_reasoner), ..self.draft() }),
    {
        let mut request = self.request;
        request.enable_reasoner = Some(enable_reasoner);
        CreateAgentRequestBuilder { request }
    }


    /// Set whether the message buffer is cleared automatically.
    pub fn message_buffer_autoclear(self, message_buffer_autoclear: bool) -> (r: Self)
        ensures
            r.draft() == (CreateAgentRequest { message_buffer_autoclear: Some(message_buffer_autoclear), ..self.draft() }),
    {
        let mut request = self.request;
        request.message_buffer_autoclear = Some(message_buffer_autoclear);
        CreateAgentRequestBuilder { request }
    }


    /// Set the block IDs.
    pub fn block_ids(self, block_ids: Vec<LettaId>) -> (r: Self)
        ensures
            r.draft() == (CreateAgentRequest { block_ids: Some(block_ids), ..self.draft() }),
    {
        let mut request = self.request;
        request.block_ids = Some(block_ids);
        CreateAgentRequestBuilder { request }
    }


    /// Set the context window limit.
    pub fn context_window_limit(self, context_window_limit: u32) -> (r: Self)
        ensures
            r.draft() == (CreateAgentRequest { context_window_limit: Some(context_window_limit), ..self.draft() }),
    {
        let mut request = self.request;
        request.context_window_limit = Some(context_window_limit);
        CreateAgentRequestBuilder { request }
    }


    /// Set the embedding chunk size.
    pub fn embedding_chunk_size(self, embedding_chunk_size: u32) -> (r: Self)
        ensures
            r.draft() == (CreateAgentRequest { embedding_chunk_size: Some(embedding_chunk_size), ..self.draft() }),
    {
        let mut request = self.request;
        request.embedding_chunk_size = Some(embedding_chunk_size);
        CreateAgentRequestBuilder { request }
    }


    /// Set the maximum number of tokens.
    pub fn max_tokens(self, max_tokens: u32) -> (r: Self)
        ensures
            r.draft() == (CreateAgentRequest { max_tokens: Some(max_tokens), ..self.draft() }),
    {
        let mut request = self.request;
        request.max_tokens = Some(max_tokens);
        CreateAgentRequestBuilder { request }
    }


    /// Set the maximum number of reasoning tokens.
    pub fn max_reasoning_tokens(self, max_reasoning_tokens: u32) -> (r: Self)
        ensures
            r.draft() == (CreateAgentRequest { max_reasoning_tokens: Some(max_reasoning_tokens), ..self.draft() }),
    {
        let mut request = self.request;
        request.max_reasoning_tokens = Some(max_reasoning_tokens);
        CreateAgentRequestBuilder { request }
    }


    /// Set the template to create the agent from.
    pub fn from_template(self, from_template: &str) -> (r: Self)
        ensures
            r.draft() == (CreateAgentRequest { from_template: r.draft().from_template, ..self.draft() }),
            r.draft().from_template matches Some(x) && x@ == from_template@,
    {
        let mut request = self.request;
        request.from_template = Some(String::from_str(from_template));
        CreateAgentRequestBuilder { request }
    }


    /// Set whether the agent is a template.
    pub fn template(self, template: bool) -> (r: Self)
        ensures
            r.draft() == (CreateAgentRequest { template: Some(template), ..self.draft() }),
    {
        let mut request = self.request;
        request.template = Some(template);
        CreateAgentRequestBuilder { request }
    }


    /// Set the memory variables.
    pub fn memory_variables(self, memory_variables: StringMap) -> (r: Self)
        ensures
            r.draft() == (CreateAgentRequest { memory_variables: Some(memory_variables), ..self.draft() }),
    {
        let mut request = self.request;
        request.memory_variables = Some(memory_variables);
        CreateAgentRequestBuilder { request }
    }


    /// Set the project ID.
    pub fn project_id(self, project_id: LettaId) -> (r: Self)
        ensures
            r.draft() == (CreateAgentRequest { project_id: Some(project_id), ..self.draft() }),
    {
        let mut request = self.request;
        request.project_id = Some(project_id);
        CreateAgentRequestBuilder { request }
    }


    /// Set the template ID.
    pub fn template_id(self, template_id: LettaId) -> (r: Self)
        ensures
            r.draft() == (CreateAgentRequest { template_id: Some(template_id), ..self.draft() }),
    {
        let mut request = self.request;
        request.template_id = Some(template_id);
        CreateAgentRequestBuilder { request }
    }


    /// Set the base template ID.
    pub fn base_template_id(self, base_template_id: LettaId) -> (r: Self)
        ensures
            r.draft() == (CreateAgentRequest { base_template_id: Some(base_template_id), ..self.draft() }),
    {
        let mut request = self.request;
        request.base_template_id = Some(base_template_id);
        CreateAgentRequestBuilder { request }
    }


    /// Set the identity IDs.
    pub fn identity_ids(self, identity_ids: Vec<LettaId>) -> (r: Self)
        ensures
            r.draft() == (CreateAgentRequest { identity_ids: Some(identity_ids), ..self.draft() }),
    {
        let mut request = self.request;
        request.identity_ids = Some(identity_ids);
        CreateAgentRequestBuilder { request }
    }


    /// Set whether to enable sleeptime.
    pub fn enable_sleeptime(self, enable_sleeptime: bool) -> (r: Self)
        ensures
            r.draft() == (CreateAgentRequest { enable_sleeptime: Some(enable_sleeptime), ..self.draft() }),
    {
        let mut request = self.request;
        request.enable_sleeptime = Some(enable_sleeptime);
        CreateAgentRequestBuilder { request }
    }


    /// Add a single memory block.
    pub fn memory_block(self, memory_block: Block) -> (r: Self)
        ensures
            r.draft() == (CreateAgentRequest { memory_blocks: r.draft().memory_blocks, ..self.draft() }),
            r.draft().memory_blocks matches Some(v) && v@ == items_or_empty(self.draft().memory_blocks).push(memory_block),
    {
        let mut request = self.request;
        let mut v = match request.memory_blocks.take() {
            Some(v) => v,
            None => Vec::new(),
        };
        v.push(memory_block);
        request.memory_blocks = Some(v);
        CreateAgentRequestBuilder { request }
    }


    /// Add a single tool ID.
    pub fn tool_id(self, tool_id: LettaId) -> (r: Self)
        ensures
            r.draft() == (CreateAgentRequest { tool_ids: r.draft().tool_ids, ..self.draft() }),
            r.draft().tool_ids matches Some(v) && v@ == items_or_empty(self.draft().tool_ids).push(tool_id),
    {
        let mut request = self.request;
        let mut v = match request.tool_ids.take() {
            Some(v) => v,
            None => Vec::new(),
        };
        v.push(tool_id);
        request.tool_ids = Some(v);
        CreateAgentRequestBuilder { request }
    }


    /// Add a single source ID.
    pub fn source_id(self, source_id: LettaId) -> (r: Self)
        ensures
            r.draft() == (CreateAgentRequest { source_ids: r.draft().source_ids, ..self.draft() }),
            r.draft().source_ids matches Some(v) && v@ == items_or_empty(self.draft().source_ids).push(source_id),
    {
        let mut request = self.request;
        let mut v = match request.source_ids.take() {
            Some(v) => v,
            None => Vec::new(),
        };
        v.push(source_id);
        request.source_ids = Some(v);
        CreateAgentRequestBuilder { request }
    }


    /// Add a single block ID.
    pub fn block_id(self, block_id: LettaId) -> (r: Self)
        ensures
            r.draft() == (CreateAgentRequest { block_ids: r.draft().block_ids, ..self.draft() }),
            r.draft().block_ids matches Some(v) && v@ == items_or_empty(self.draft().block_ids).push(block_id),
    {
        let mut request = self.request;
        let mut v = match request.block_ids.take() {
            Some(v) => v,
            None => Vec::new(),
        };
        v.push(block_id);
        request.block_ids = Some(v);
        CreateAgentRequestBuilder { request }
    }


    /// Add a single identity ID.
    pub fn identity_id(self, identity_id: LettaId) -> (r: Self)
        ensures
            r.draft() == (CreateAgentRequest { identity_ids: r.draft().identity_ids, ..self.draft() }),
            r.draft().identity_ids matches Some(v) && v@ == items_or_empty(self.draft().identity_ids).push(identity_id),
    {
        let mut request = self.request;
        let mut v = match request.identity_ids.take() {
            Some(v) => v,
            None => Vec::new(),
        };
        v.push(identity_id);
        request.identity_ids = Some(v);
        CreateAgentRequestBuilder { request }
    }


    /// Add a single tool rule.
    pub fn tool_rule(self, tool_rule: ToolRule) -> (r: Self)
        ensures
            r.draft() == (CreateAgentRequest { tool_rules: r.draft().tool_rules, ..self.draft() }),
            r.draft().tool_rules matches Some(v) && v@ == items_or_empty(self.draft().tool_rules).push(tool_rule),
    {
        let mut request = self.request;
        let mut v = match request.tool_rules.take() {
            Some(v) => v,
            None => Vec::new(),
        };
        v.push(tool_rule);
        request.tool_rules = Some(v);
        CreateAgentRequestBuilder { request }
    }


    /// Add a single tool by name.
    pub fn tool(self, tool: &str) -> (r: Self)
        ensures
            r.draft() == (CreateAgentRequest { tools: r.draft().tools, ..self.draft() }),
            r.draft().tools matches Some(v) && strings_view(v@) == strings_view(items_or_empty(self.draft().tools)).push(tool@),
    {
        let mut request = self.request;
        let mut v = match request.tools.take() {
            Some(v) => v,
            None => Vec::new(),
        };
        let ghost before = v@;
        v.push(String::from_str(tool));
        assert(strings_view(v@) =~= strings_view(before).push(tool@));
        request.tools = Some(v);
        CreateAgentRequestBuilder { request }
    }


    /// Add a single tag.
    pub fn tag(self, tag: &str) -> (r: Self)
        ensures
            r.draft() == (CreateAgentRequest { tags: r.draft().tags, ..self.draft() }),
            r.draft().tags matches Some(v) && strings_view(v@) == strings_view(items_or_empty(self.draft().tags)).push(tag@),
    {
        let mut request = self.request;
        let mut v = match request.tags.take() {
            Some(v) => v,
            None => Vec::new(),
        };
        let ghost before = v@;
        v.push(String::from_str(tag));
        assert(strings_view(v@) =~= strings_view(before).push(tag@));
        request.tags = Some(v);
        CreateAgentRequestBuilder { request }
    }


    /// Add a single memory variable (replacing the value of a name already set).
    pub fn memory_variable(self, key: &str, value: &str) -> (r: Self)
        ensures
            r.draft() == (CreateAgentRequest { memory_variables: r.draft().memory_variables, ..self.draft() }),
            r.draft().memory_variables matches Some(m) && m@ == entries_insert(map_or_empty(self.draft().memory_variables), key@, value@),
    {
        let mut request = self.request;
        let mut m = match request.memory_variables.take() {
            Some(m) => m,
            None => StringMap::new(),
        };
        m.insert(String::from_str(key), String::from_str(value));
        request.memory_variables = Some(m);
        CreateAgentRequestBuilder { request }
    }


    /// Add a single tool execution environment variable (replacing the value of a name already set).
    pub fn tool_exec_env_var(self, key: &str, value: &str) -> (r: Self)
        ensures
            r.draft() == (CreateAgentRequest { tool_exec_environment_variables: r.draft().tool_exec_environment_variables, ..self.draft() }),
            r.draft().tool_exec_environment_variables matches Some(m) && m@ == entries_insert(map_or_empty(self.draft().tool_exec_environment_variables), key@, value@),
    {
        let mut request = self.request;
        let mut m = match request.tool_exec_environment_variables.take() {
            Some(m) => m,
            None => StringMap::new(),
        };
        m.insert(String::from_str(key), String::from_str(value));
        request.tool_exec_environment_variables = Some(m);
        CreateAgentRequestBuilder { request }
    }


    /// Build the request.
    pub fn build(self) -> (r: CreateAgentRequest)
        ensures
            r == self.draft(),
    {
        self.request
    }
}


/// Parameters with no filter set.
pub open spec fn blank_list_agents_params() -> ListAgentsParams {
    ListAgentsParams {
        name: None,
        tags: None,
        match_all_tags: None,
        before: None,
        after: None,
        limit: None,
        query_text: None,
        project_id: None,
        template_id: None,
        base_template_id: None,
        identity_id: None,
        identifier_keys: None,
        include_relationships: None,
        ascending: None,
        sort_by: None,
    }
}

impl ListAgentsParams {
    /// Create a new list agents params builder, with no filter set.
    pub fn builder() -> (r: ListAgentsParamsBuilder)
        ensures
            r.draft() == blank_list_agents_params(),
    {
        ListAgentsParamsBuilder { params: ListAgentsParams::default() }
    }
}

/// Builder for [`ListAgentsParams`].
#[derive(Debug)]
pub struct ListAgentsParamsBuilder {
    params: ListAgentsParams,
}

impl Default for ListAgentsParamsBuilder {
    /// A builder with no filter set.
    fn default() -> (r: Self)
        ensures
            r.draft() == blank_list_agents_params(),
    {
        ListAgentsParamsBuilder { params: ListAgentsParams::default() }
    }
}

impl ListAgentsParamsBuilder {
    /// The parameters built so far.
    pub closed spec fn draft(self) -> ListAgentsParams {
        self.params
    }

    /// Filter by name.
    pub fn name(self, name: &str) -> (r: Self)
        ensures
            r.draft() == (ListAgentsParams { name: r.draft().name, ..self.draft() }),
            r.draft().name matches Some(x) && x@ == name@,
    {
        let mut params = self.params;
        params.name = Some(String::from_str(name));
        ListAgentsParamsBuilder { params }
    }

    /// Filter by tags.
    pub fn tags(self, tags: Vec<String>) -> (r: Self)
        ensures
            r.draft() == (ListAgentsParams { tags: Some(tags), ..self.draft() }),
    {
        let mut params = self.params;
        params.tags = Some(tags);
        ListAgentsParamsBuilder { params }
    }

    /// Set the pagination limit.
    pub fn limit(self, limit: u32) -> (r: Self)
        ensures
            r.draft() == (ListAgentsParams { limit: Some(limit), ..self.draft() }),
    {
        let mut params = self.params;
        params.limit = Some(limit);
        ListAgentsParamsBuilder { params }
    }

    /// Set the search query.
    pub fn query_text(self, query_text: &str) -> (r: Self)
        ensures
            r.draft() == (ListAgentsParams { query_text: r.draft().query_text, ..self.draft() }),
            r.draft().query_text matches Some(x) && x@ == query_text@,
    {
        let mut params = self.params;
        params.query_text = Some(String::from_str(query_text));
        ListAgentsParamsBuilder { params }
    }

    /// Build the params.
    pub fn build(self) -> (r: ListAgentsParams)
        ensures
            r == self.draft(),
    {
        self.params
    }
}

} // verus!
