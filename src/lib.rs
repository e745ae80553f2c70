//! Random emoji generation over the Unicode emoji listing of the `emojis`
//! crate: a read-only pool, a sampler that draws from it with replacement,
//! and the rendering of a draw as one space-separated line.

mod pool;
mod render;
mod sample;

pub use pool::{
    is_emoji_listing, is_unicode_emoji, lemma_pool_reads_agree, lemma_unicode_emoji_in_pool,
    listed_emoji, views_of, EmojiPool,
};
pub use render::{join_with_spaces, joined};
pub use sample::generate_emojis;
