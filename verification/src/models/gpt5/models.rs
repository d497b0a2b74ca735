//! Model identifiers of the GPT-5 generation and of the models they replace

use vstd::prelude::*;

verus! {

/// GPT-5.6 Sol: the most capable model for complex reasoning
pub const GPT_5_6_SOL: &'static str = "gpt-5.6-sol";

/// GPT-5.6 Terra
pub const GPT_5_6_TERRA: &'static str = "gpt-5.6-terra";

/// GPT-5.6 Luna
pub const GPT_5_6_LUNA: &'static str = "gpt-5.6-luna";

/// GPT-5.4
pub const GPT_5_4: &'static str = "gpt-5.4";

/// GPT-5.4 mini
pub const GPT_5_4_MINI: &'static str = "gpt-5.4-mini";

/// GPT-5.4 nano
pub const GPT_5_4_NANO: &'static str = "gpt-5.4-nano";

/// GPT-5.3 chat (latest)
pub const GPT_5_3_CHAT_LATEST: &'static str = "gpt-5.3-chat-latest";

/// GPT-5
pub const GPT_5: &'static str = "gpt-5";

/// GPT-5 mini
pub const GPT_5_MINI: &'static str = "gpt-5-mini";

/// GPT-5 nano
pub const GPT_5_NANO: &'static str = "gpt-5-nano";

/// GPT-5 chat (latest)
pub const GPT_5_CHAT_LATEST: &'static str = "gpt-5-chat-latest";

/// GPT-5 snapshot of 2025-08-07
pub const GPT_5_2025_08_07: &'static str = "gpt-5-2025-08-07";

/// GPT-5 snapshot ID superseded by `GPT_5_2025_08_07`
pub const GPT_5_2025_01_01: &'static str = "gpt-5-2025-01-01";

/// GPT-5 mini snapshot of 2025-08-07
pub const GPT_5_MINI_2025_08_07: &'static str = "gpt-5-mini-2025-08-07";

/// GPT-5 mini snapshot ID superseded by `GPT_5_MINI_2025_08_07`
pub const GPT_5_MINI_2025_01_01: &'static str = "gpt-5-mini-2025-01-01";

/// GPT-5 nano snapshot of 2025-08-07
pub const GPT_5_NANO_2025_08_07: &'static str = "gpt-5-nano-2025-08-07";

/// GPT-5 nano snapshot ID superseded by `GPT_5_NANO_2025_08_07`
pub const GPT_5_NANO_2025_01_01: &'static str = "gpt-5-nano-2025-01-01";

/// GPT-4.1
pub const GPT_4_1: &'static str = "gpt-4.1";

/// GPT-4.1 mini
pub const GPT_4_1_MINI: &'static str = "gpt-4.1-mini";

/// GPT-4.1 nano
pub const GPT_4_1_NANO: &'static str = "gpt-4.1-nano";

/// GPT-4
pub const GPT_4: &'static str = "gpt-4";

/// GPT-4 Turbo
pub const GPT_4_TURBO: &'static str = "gpt-4-turbo";

/// GPT-3.5 Turbo
pub const GPT_3_5_TURBO: &'static str = "gpt-3.5-turbo";

/// o3 reasoning model
pub const O3: &'static str = "o3";

/// o4-mini reasoning model
pub const O4_MINI: &'static str = "o4-mini";

} // verus!
