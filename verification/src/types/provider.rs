//! Provider-related types.

use vstd::prelude::*;
use crate::json::JsonDoc;
use crate::types::common::{LettaId, Metadata, StringMap};
use crate::types::models::ProviderCategory;

verus! {

/// Provider configuration for LLM/embedding models.
#[derive(Debug)]
pub struct Provider {
    /// Provider ID (prefixed with "provider-").
    pub id: LettaId,
    /// Provider name.
    pub name: String,
    /// Provider type.
    pub provider_type: ProviderType,
    /// Provider category.
    pub provider_category: ProviderCategory,
    /// API key (encrypted).
    pub api_key: Option<String>,
    /// Base URL for the provider.
    pub base_url: Option<String>,
    /// Access key (for certain providers).
    pub access_key: Option<String>,
    /// Secret key (for certain providers).
    pub secret_key: Option<String>,
    /// Region (for providers like AWS).
    pub region: Option<String>,
    /// Additional metadata.
    pub metadata: Option<JsonDoc>,
    /// Organization ID.
    pub organization_id: Option<String>,
    /// Last updated timestamp.
    pub updated_at: Option<String>,
}

/// Provider types.
#[derive(PartialEq, Eq, Structural, Clone, Copy, Debug)]
pub enum ProviderType {
    /// Anthropic
    Anthropic,
    /// OpenAI
    Openai,
    /// Azure OpenAI
    Azure,
    /// Google AI
    GoogleAi,
    /// Groq
    Groq,
    /// Cohere
    Cohere,
    /// Together AI
    Together,
    /// Mistral
    Mistral,
    /// Ollama (local)
    Ollama,
    /// vLLM
    Vllm,
    /// LM Studio
    LmStudio,
    /// Kobold
    Kobold,
    /// Replicate
    Replicate,
    /// OpenRouter
    OpenRouter,
    /// Perplexity
    Perplexity,
    /// Recursal
    Recursal,
    /// Fireworks
    Fireworks,
    /// Anyscale
    Anyscale,
    /// Cloudflare
    Cloudflare,
    /// Voyage
    Voyage,
    /// AWS Bedrock
    Bedrock,
    /// Other/Custom
    Other,
}

/// Request to create a new provider.
#[derive(Debug)]
pub struct ProviderCreate {
    /// Provider name.
    pub name: String,
    /// Provider type.
    pub provider_type: ProviderType,
    /// Provider category.
    pub provider_category: Option<ProviderCategory>,
    /// API key (required).
    pub api_key: String,
    /// Base URL for the provider.
    pub base_url: Option<String>,
    /// Access key (for certain providers).
    pub access_key: Option<String>,
    /// Secret key (for certain providers).
    pub secret_key: Option<String>,
    /// Region (for providers like AWS).
    pub region: Option<String>,
    /// Additional metadata.
    pub metadata: Option<JsonDoc>,
}

/// Request to update a provider.
///
/// Only `api_key`, `access_key`, and `region` can be updated.
#[derive(Debug)]
pub struct ProviderUpdate {
    /// API key (required).
    pub api_key: String,
    /// Access key (for certain providers).
    pub access_key: Option<String>,
    /// Region (for providers like AWS).
    pub region: Option<String>,
}

/// Query parameters for listing providers.
#[derive(Debug)]
pub struct ListProvidersParams {
    /// Filter by provider category.
    pub provider_category: Option<ProviderCategory>,
    /// Filter by provider type.
    pub provider_type: Option<ProviderType>,
    /// Cursor for pagination - return results after this ID.
    pub after: Option<String>,
    /// Maximum number of results to return.
    pub limit: Option<i32>,
}

impl Default for ListProvidersParams {
    /// Every field empty.
    fn default() -> (r: Self)
        ensures
            r.provider_category is None,
            r.provider_type is None,
            r.after is None,
            r.limit is None,
    {
        ListProvidersParams {
            provider_category: None,
            provider_type: None,
            after: None,
            limit: None,
        }
    }
}

/// Response from provider check endpoint.
#[derive(Debug)]
pub struct ProviderCheckResponse {
    /// Whether the provider is reachable.
    pub status: bool,
    /// Optional error message if check failed.
    pub error: Option<String>,
}

/// Response from provider delete endpoint.
#[derive(Debug)]
pub struct ProviderDeleteResponse {
    /// Success message.
    pub message: String,
}

} // verus!

verus! {

/// The name of a provider type.
pub open spec fn provider_type_name(x: ProviderType) -> Seq<char> {
    match x {
        ProviderType::Anthropic => "anthropic"@,
        ProviderType::Openai => "openai"@,
        ProviderType::Azure => "azure"@,
        ProviderType::GoogleAi => "google_ai"@,
        ProviderType::Groq => "groq"@,
        ProviderType::Cohere => "cohere"@,
        ProviderType::Together => "together"@,
        ProviderType::Mistral => "mistral"@,
        ProviderType::Ollama => "ollama"@,
        ProviderType::Vllm => "vllm"@,
        ProviderType::LmStudio => "lmstudio"@,
        ProviderType::Kobold => "kobold"@,
        ProviderType::Replicate => "replicate"@,
        ProviderType::OpenRouter => "openrouter"@,
        ProviderType::Perplexity => "perplexity"@,
        ProviderType::Recursal => "recursal"@,
        ProviderType::Fireworks => "fireworks"@,
        ProviderType::Anyscale => "anyscale"@,
        ProviderType::Cloudflare => "cloudflare"@,
        ProviderType::Voyage => "voyage"@,
        ProviderType::Bedrock => "bedrock"@,
        ProviderType::Other => "other"@,
    }
}

impl ProviderType {
    /// The name the API uses for this value (its display text).
    pub fn as_str(&self) -> (r: &'static str)
        ensures
            r@ == provider_type_name(*self),
    {
        match self {
            ProviderType::Anthropic => "anthropic",
            ProviderType::Openai => "openai",
            ProviderType::Azure => "azure",
            ProviderType::GoogleAi => "google_ai",
            ProviderType::Groq => "groq",
            ProviderType::Cohere => "cohere",
            ProviderType::Together => "together",
            ProviderType::Mistral => "mistral",
            ProviderType::Ollama => "ollama",
            ProviderType::Vllm => "vllm",
            ProviderType::LmStudio => "lmstudio",
            ProviderType::Kobold => "kobold",
            ProviderType::Replicate => "replicate",
            ProviderType::OpenRouter => "openrouter",
            ProviderType::Perplexity => "perplexity",
            ProviderType::Recursal => "recursal",
            ProviderType::Fireworks => "fireworks",
            ProviderType::Anyscale => "anyscale",
            ProviderType::Cloudflare => "cloudflare",
            ProviderType::Voyage => "voyage",
            ProviderType::Bedrock => "bedrock",
            ProviderType::Other => "other",
        }
    }

    /// The display text.
    pub fn to_string(&self) -> (r: String)
        ensures
            r@ == provider_type_name(*self),
    {
        self.as_str().to_string()
    }
}

/// The provider type a name denotes.
pub open spec fn provider_type_from_name(s: Seq<char>) -> Option<ProviderType> {
    if s == "anthropic"@ {
        Some(ProviderType::Anthropic)
    } else     if s == "openai"@ {
        Some(ProviderType::Openai)
    } else     if s == "azure"@ {
        Some(ProviderType::Azure)
    } else     if s == "google_ai"@ {
        Some(ProviderType::GoogleAi)
    } else     if s == "groq"@ {
        Some(ProviderType::Groq)
    } else     if s == "cohere"@ {
        Some(ProviderType::Cohere)
    } else     if s == "together"@ {
        Some(ProviderType::Together)
    } else     if s == "mistral"@ {
        Some(ProviderType::Mistral)
    } else     if s == "ollama"@ {
        Some(ProviderType::Ollama)
    } else     if s == "vllm"@ {
        Some(ProviderType::Vllm)
    } else     if s == "lmstudio"@ {
        Some(ProviderType::LmStudio)
    } else     if s == "kobold"@ {
        Some(ProviderType::Kobold)
    } else     if s == "replicate"@ {
        Some(ProviderType::Replicate)
    } else     if s == "openrouter"@ {
        Some(ProviderType::OpenRouter)
    } else     if s == "perplexity"@ {
        Some(ProviderType::Perplexity)
    } else     if s == "recursal"@ {
        Some(ProviderType::Recursal)
    } else     if s == "fireworks"@ {
        Some(ProviderType::Fireworks)
    } else     if s == "anyscale"@ {
        Some(ProviderType::Anyscale)
    } else     if s == "cloudflare"@ {
        Some(ProviderType::Cloudflare)
    } else     if s == "voyage"@ {
        Some(ProviderType::Voyage)
    } else     if s == "bedrock"@ {
        Some(ProviderType::Bedrock)
    } else     if s == "other"@ {
        Some(ProviderType::Other)
    } else {
        None
    }
}

impl ProviderType {
    /// Parses a provider type from its name; other names are refused with
    /// `Unknown provider type: <name>`.
    pub fn from_str(s: &str) -> (r: Result<Self, String>)
        ensures
            match provider_type_from_name(s@) {
                Some(p) => r == Ok::<ProviderType, String>(p),
                None => r matches Err(e) && e@ == "Unknown provider type: "@ + s@,
            },
    {
        let c = crate::text::chars_of(s);
        if crate::text::chars_eq(&c, &crate::text::chars_of("anthropic")) {
            return Ok(ProviderType::Anthropic);
        }
        if crate::text::chars_eq(&c, &crate::text::chars_of("openai")) {
            return Ok(ProviderType::Openai);
        }
        if crate::text::chars_eq(&c, &crate::text::chars_of("azure")) {
            return Ok(ProviderType::Azure);
        }
        if crate::text::chars_eq(&c, &crate::text::chars_of("google_ai")) {
            return Ok(ProviderType::GoogleAi);
        }
        if crate::text::chars_eq(&c, &crate::text::chars_of("groq")) {
            return Ok(ProviderType::Groq);
        }
        if crate::text::chars_eq(&c, &crate::text::chars_of("cohere")) {
            return Ok(ProviderType::Cohere);
        }
        if crate::text::chars_eq(&c, &crate::text::chars_of("together")) {
            return Ok(ProviderType::Together);
        }
        if crate::text::chars_eq(&c, &crate::text::chars_of("mistral")) {
            return Ok(ProviderType::Mistral);
        }
        if crate::text::chars_eq(&c, &crate::text::chars_of("ollama")) {
            return Ok(ProviderType::Ollama);
        }
        if crate::text::chars_eq(&c, &crate::text::chars_of("vllm")) {
            return Ok(ProviderType::Vllm);
        }
        if crate::text::chars_eq(&c, &crate::text::chars_of("lmstudio")) {
            return Ok(ProviderType::LmStudio);
        }
        if crate::text::chars_eq(&c, &crate::text::chars_of("kobold")) {
            return Ok(ProviderType::Kobold);
        }
        if crate::text::chars_eq(&c, &crate::text::chars_of("replicate")) {
            return Ok(ProviderType::Replicate);
        }
        if crate::text::chars_eq(&c, &crate::text::chars_of("openrouter")) {
            return Ok(ProviderType::OpenRouter);
        }
        if crate::text::chars_eq(&c, &crate::text::chars_of("perplexity")) {
            return Ok(ProviderType::Perplexity);
        }
        if crate::text::chars_eq(&c, &crate::text::chars_of("recursal")) {
            return Ok(ProviderType::Recursal);
        }
        if crate::text::chars_eq(&c, &crate::text::chars_of("fireworks")) {
            return Ok(ProviderType::Fireworks);
        }
        if crate::text::chars_eq(&c, &crate::text::chars_of("anyscale")) {
            return Ok(ProviderType::Anyscale);
        }
        if crate::text::chars_eq(&c, &crate::text::chars_of("cloudflare")) {
            return Ok(ProviderType::Cloudflare);
        }
        if crate::text::chars_eq(&c, &crate::text::chars_of("voyage")) {
            return Ok(ProviderType::Voyage);
        }
        if crate::text::chars_eq(&c, &crate::text::chars_of("bedrock")) {
            return Ok(ProviderType::Bedrock);
        }
        if crate::text::chars_eq(&c, &crate::text::chars_of("other")) {
            return Ok(ProviderType::Other);
        }
        let mut v: Vec<char> = Vec::new();
        crate::text::push_str(&mut v, "Unknown provider type: ");
        crate::text::push_str(&mut v, s);
        Err(crate::text::string_of(&v))
    }
}

/// Law: every provider type's name parses back to it, so distinct types have
/// distinct names.
pub proof fn law_provider_type_name_roundtrip(p: ProviderType)
    ensures
        provider_type_from_name(provider_type_name(p)) == Some(p),
{
    reveal_strlit("anthropic");
    reveal_strlit("openai");
    reveal_strlit("azure");
    reveal_strlit("google_ai");
    reveal_strlit("groq");
    reveal_strlit("cohere");
    reveal_strlit("together");
    reveal_strlit("mistral");
    reveal_strlit("ollama");
    reveal_strlit("vllm");
    reveal_strlit("lmstudio");
    reveal_strlit("kobold");
    reveal_strlit("replicate");
    reveal_strlit("openrouter");
    reveal_strlit("perplexity");
    reveal_strlit("recursal");
    reveal_strlit("fireworks");
    reveal_strlit("anyscale");
    reveal_strlit("cloudflare");
    reveal_strlit("voyage");
    reveal_strlit("bedrock");
    reveal_strlit("other");
    // Any two names differ in length or in one of their first two letters.
    assert("anthropic"@.len() == 9 && "anthropic"@[0] == 'a' && "anthropic"@[1] == 'n');
    assert("openai"@.len() == 6 && "openai"@[0] == 'o' && "openai"@[1] == 'p');
    assert("azure"@.len() == 5 && "azure"@[0] == 'a' && "azure"@[1] == 'z');
    assert("google_ai"@.len() == 9 && "google_ai"@[0] == 'g' && "google_ai"@[1] == 'o');
    assert("groq"@.len() == 4 && "groq"@[0] == 'g' && "groq"@[1] == 'r');
    assert("cohere"@.len() == 6 && "cohere"@[0] == 'c' && "cohere"@[1] == 'o');
    assert("together"@.len() == 8 && "together"@[0] == 't' && "together"@[1] == 'o');
    assert("mistral"@.len() == 7 && "mistral"@[0] == 'm' && "mistral"@[1] == 'i');
    assert("ollama"@.len() == 6 && "ollama"@[0] == 'o' && "ollama"@[1] == 'l');
    assert("vllm"@.len() == 4 && "vllm"@[0] == 'v' && "vllm"@[1] == 'l');
    assert("lmstudio"@.len() == 8 && "lmstudio"@[0] == 'l' && "lmstudio"@[1] == 'm');
    assert("kobold"@.len() == 6 && "kobold"@[0] == 'k' && "kobold"@[1] == 'o');
    assert("replicate"@.len() == 9 && "replicate"@[0] == 'r' && "replicate"@[1] == 'e');
    assert("openrouter"@.len() == 10 && "openrouter"@[0] == 'o' && "openrouter"@[1] == 'p');
    assert("perplexity"@.len() == 10 && "perplexity"@[0] == 'p' && "perplexity"@[1] == 'e');
    assert("recursal"@.len() == 8 && "recursal"@[0] == 'r' && "recursal"@[1] == 'e');
    assert("fireworks"@.len() == 9 && "fireworks"@[0] == 'f' && "fireworks"@[1] == 'i');
    assert("anyscale"@.len() == 8 && "anyscale"@[0] == 'a' && "anyscale"@[1] == 'n');
    assert("cloudflare"@.len() == 10 && "cloudflare"@[0] == 'c' && "cloudflare"@[1] == 'l');
    assert("voyage"@.len() == 6 && "voyage"@[0] == 'v' && "voyage"@[1] == 'o');
    assert("bedrock"@.len() == 7 && "bedrock"@[0] == 'b' && "bedrock"@[1] == 'e');
    assert("other"@.len() == 5 && "other"@[0] == 'o' && "other"@[1] == 't');
    match p {
        ProviderType::Anthropic => {},
        ProviderType::Openai => {},
        ProviderType::Azure => {},
        ProviderType::GoogleAi => {},
        ProviderType::Groq => {},
        ProviderType::Cohere => {},
        ProviderType::Together => {},
        ProviderType::Mistral => {},
        ProviderType::Ollama => {},
        ProviderType::Vllm => {},
        ProviderType::LmStudio => {},
        ProviderType::Kobold => {},
        ProviderType::Replicate => {},
        ProviderType::OpenRouter => {},
        ProviderType::Perplexity => {},
        ProviderType::Recursal => {},
        ProviderType::Fireworks => {},
        ProviderType::Anyscale => {},
        ProviderType::Cloudflare => {},
        ProviderType::Voyage => {},
        ProviderType::Bedrock => {},
        ProviderType::Other => {},
    }
}

} // verus!
