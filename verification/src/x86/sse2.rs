//! The SSE2 operations on lane vectors.

pub mod arith;
pub mod byteshift;
pub mod compare;
pub mod convert;
pub mod double;
pub mod element;
pub mod logic;
pub mod memory;
pub mod pack;
pub mod set;
pub mod shift;
pub mod shuffle;
pub mod unpack;

pub use self::arith::{
    _mm_add_epi16, _mm_add_epi32, _mm_add_epi64, _mm_add_epi8, _mm_adds_epi16, _mm_adds_epi8,
    _mm_adds_epu16, _mm_adds_epu8, _mm_avg_epu16, _mm_avg_epu8, _mm_madd_epi16, _mm_max_epi16,
    _mm_max_epu8, _mm_min_epi16, _mm_min_epu8, _mm_mul_epu32, _mm_mulhi_epi16, _mm_mulhi_epu16,
    _mm_mullo_epi16, _mm_sad_epu8, _mm_sub_epi16, _mm_sub_epi32, _mm_sub_epi64, _mm_sub_epi8,
    _mm_subs_epi16, _mm_subs_epi8, _mm_subs_epu16, _mm_subs_epu8,
};
pub use self::byteshift::{_mm_bslli_si128, _mm_bsrli_si128, _mm_slli_si128, _mm_srli_si128};
pub use self::compare::{
    _mm_cmpeq_epi16, _mm_cmpeq_epi32, _mm_cmpeq_epi8, _mm_cmpgt_epi16, _mm_cmpgt_epi32,
    _mm_cmpgt_epi8, _mm_cmplt_epi16, _mm_cmplt_epi32, _mm_cmplt_epi8,
};
pub use self::convert::{
    _mm_cvtsi128_si32, _mm_cvtsi128_si64, _mm_cvtsi128_si64x, _mm_cvtsi32_si128,
    _mm_cvtsi64_si128, _mm_cvtsi64x_si128, _mm_move_epi64,
};
pub use self::double::{
    _mm_and_pd, _mm_andnot_pd, _mm_load_pd, _mm_movemask_pd, _mm_or_pd, _mm_store_pd,
    _mm_xor_pd,
};
pub use self::element::{_mm_extract_epi16, _mm_insert_epi16, _mm_movemask_epi8};
pub use self::logic::{_mm_and_si128, _mm_andnot_si128, _mm_or_si128, _mm_xor_si128};
pub use self::memory::{
    _mm_load_si128, _mm_loadl_epi64, _mm_loadu_si128, _mm_maskmoveu_si128, _mm_store_si128,
    _mm_storel_epi64, _mm_storeu_si128,
};
pub use self::pack::{_mm_packs_epi16, _mm_packs_epi32, _mm_packus_epi16};
pub use self::set::{
    _mm_set1_epi16, _mm_set1_epi32, _mm_set1_epi64x, _mm_set1_epi8, _mm_set_epi16,
    _mm_set_epi32, _mm_set_epi64x, _mm_set_epi8, _mm_setr_epi16, _mm_setr_epi32, _mm_setr_epi8,
    _mm_setzero_si128,
};
pub use self::shift::{
    _mm_sll_epi16, _mm_sll_epi32, _mm_sll_epi64, _mm_slli_epi16, _mm_slli_epi32, _mm_slli_epi64,
    _mm_sra_epi16, _mm_sra_epi32, _mm_srai_epi16, _mm_srai_epi32, _mm_srl_epi16, _mm_srl_epi32,
    _mm_srl_epi64, _mm_srli_epi16, _mm_srli_epi32, _mm_srli_epi64,
};
pub use self::shuffle::{_mm_shuffle_epi32, _mm_shufflehi_epi16, _mm_shufflelo_epi16};
pub use self::unpack::{
    _mm_unpackhi_epi16, _mm_unpackhi_epi32, _mm_unpackhi_epi64, _mm_unpackhi_epi8,
    _mm_unpacklo_epi16, _mm_unpacklo_epi32, _mm_unpacklo_epi64, _mm_unpacklo_epi8,
};
