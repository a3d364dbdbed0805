//! Configuration values, with their defaults pinned down.
//!
//! Reading and writing the configuration file is I/O and lives outside
//! the library; the library states what the values default to.

use vstd::prelude::*;

verus! {

/// API keys for external services.
#[derive(Debug, PartialEq, Eq)]
pub struct ApiKeysConfig {
    pub anthropic: String,
    pub semantic_scholar: String,
}

/// Paper-search limits and preferences.
#[derive(Debug, PartialEq, Eq)]
pub struct SearchConfig {
    pub max_papers: usize,
    pub top_techniques: usize,
    pub year_range: [u16; 2],
    pub prefer_open_access: bool,
}

/// Model and token limits for variant generation.
#[derive(Debug, PartialEq, Eq)]
pub struct GenerationConfig {
    pub claude_model: String,
    pub max_tokens_per_variant: usize,
}

/// Benchmark timeout and metric list.
#[derive(Debug, PartialEq, Eq)]
pub struct BenchmarkConfig {
    pub timeout_seconds: u64,
    pub metrics: Vec<String>,
}

/// The whole configuration.
#[derive(Debug, PartialEq, Eq)]
pub struct UniqConfig {
    pub api_keys: ApiKeysConfig,
    pub search: SearchConfig,
    pub generation: GenerationConfig,
    pub benchmark: BenchmarkConfig,
}

pub fn default_max_papers() -> (r: usize)
    ensures
        r == 500,
{
    500
}

pub fn default_top_techniques() -> (r: usize)
    ensures
        r == 10,
{
    10
}

pub fn default_year_range() -> (r: [u16; 2])
    ensures
        r@ =~= seq![2015u16, 2026u16],
{
    [2015, 2026]
}

pub fn default_true() -> (r: bool)
    ensures
        r,
{
    true
}

pub fn default_claude_model() -> (r: String)
    ensures
        r@ == "sonnet-4-20250514"@,
{
    "sonnet-4-20250514".to_owned()
}

pub fn default_max_tokens() -> (r: usize)
    ensures
        r == 8192,
{
    8192
}

pub fn default_timeout() -> (r: u64)
    ensures
        r == 300,
{
    300
}

pub fn default_metrics() -> (r: Vec<String>)
    ensures
        r.deep_view() =~= seq![
            "build_success"@,
            "test_pass"@,
            "runtime_ms"@,
            "memory_mb"@,
        ],
{
    let mut v: Vec<String> = Vec::new();
    v.push("build_success".to_owned());
    v.push("test_pass".to_owned());
    v.push("runtime_ms".to_owned());
    v.push("memory_mb".to_owned());
    v
}

impl Default for ApiKeysConfig {
    /// Both keys default to empty.
    fn default() -> (r: Self)
        ensures
            r.anthropic@ == Seq::<char>::empty(),
            r.semantic_scholar@ == Seq::<char>::empty(),
    {
        ApiKeysConfig { anthropic: String::new(), semantic_scholar: String::new() }
    }
}

impl Default for SearchConfig {
    /// Defaults: 500 papers, 10 techniques, years 2015 to 2026, open
    /// access preferred.
    fn default() -> (r: Self)
        ensures
            r.max_papers == 500,
            r.top_techniques == 10,
            r.year_range@ =~= seq![2015u16, 2026u16],
            r.prefer_open_access,
    {
        SearchConfig {
            max_papers: default_max_papers(),
            top_techniques: default_top_techniques(),
            year_range: default_year_range(),
            prefer_open_access: default_true(),
        }
    }
}

impl Default for GenerationConfig {
    /// Defaults: the pinned model name and an 8192-token budget.
    fn default() -> (r: Self)
        ensures
            r.claude_model@ == "sonnet-4-20250514"@,
            r.max_tokens_per_variant == 8192,
    {
        GenerationConfig {
            claude_model: default_claude_model(),
            max_tokens_per_variant: default_max_tokens(),
        }
    }
}

impl Default for BenchmarkConfig {
    /// Defaults: 300 second timeout and the four standard metrics.
    fn default() -> (r: Self)
        ensures
            r.timeout_seconds == 300,
            r.metrics.deep_view() =~= seq![
                "build_success"@,
                "test_pass"@,
                "runtime_ms"@,
                "memory_mb"@,
            ],
    {
        BenchmarkConfig { timeout_seconds: default_timeout(), metrics: default_metrics() }
    }
}

impl Default for UniqConfig {
    /// Every section takes its own defaults.
    fn default() -> (r: Self)
        ensures
            r.api_keys.anthropic@ == Seq::<char>::empty(),
            r.api_keys.semantic_scholar@ == Seq::<char>::empty(),
            r.search.max_papers == 500,
            r.search.top_techniques == 10,
            r.search.year_range@ =~= seq![2015u16, 2026u16],
            r.search.prefer_open_access,
            r.generation.claude_model@ == "sonnet-4-20250514"@,
            r.generation.max_tokens_per_variant == 8192,
            r.benchmark.timeout_seconds == 300,
            r.benchmark.metrics.deep_view() =~= seq![
                "build_success"@,
                "test_pass"@,
                "runtime_ms"@,
                "memory_mb"@,
            ],
    {
        UniqConfig {
            api_keys: ApiKeysConfig::default(),
            search: SearchConfig::default(),
            generation: GenerationConfig::default(),
            benchmark: BenchmarkConfig::default(),
        }
    }
}

} // verus!
