use vstd::prelude::*;

verus! {

/// Configuration for AV1 encoding through the encoder library
#[derive(Debug, Clone, Copy, PartialEq, Eq, Structural)]
pub struct EncoderConfig {
    /// Constant Rate Factor (0-63, lower = better quality)
    pub crf: i32,
    /// CPU usage (0-8)
    pub cpu_used: i32,
    /// Enable row-based multithreading
    pub row_mt: bool,
    /// Number of tile columns (for parallel encoding)
    pub tile_columns: i32,
    /// Number of tile rows
    pub tile_rows: i32,
    /// Number of threads; 0 lets the encoder choose
    pub threads: usize,
}

impl Default for EncoderConfig {
    fn default() -> (config: Self)
        ensures
            config == (EncoderConfig {
                crf: 30,
                cpu_used: 4,
                row_mt: true,
                tile_columns: 2,
                tile_rows: 2,
                threads: 0,
            }),
    {
        EncoderConfig { crf: 30, cpu_used: 4, row_mt: true, tile_columns: 2, tile_rows: 2, threads: 0 }
    }
}

impl EncoderConfig {
    /// Preset for high quality (slower encoding)
    pub fn high_quality() -> (config: Self)
        ensures
            config == (EncoderConfig {
                crf: 23,
                cpu_used: 2,
                row_mt: true,
                tile_columns: 2,
                tile_rows: 2,
                threads: 0,
            }),
    {
        EncoderConfig { crf: 23, cpu_used: 2, row_mt: true, tile_columns: 2, tile_rows: 2, threads: 0 }
    }

    /// Preset for balanced quality/speed
    pub fn balanced() -> (config: Self)
        ensures
            config == (EncoderConfig {
                crf: 30,
                cpu_used: 4,
                row_mt: true,
                tile_columns: 2,
                tile_rows: 2,
                threads: 0,
            }),
    {
        EncoderConfig { crf: 30, cpu_used: 4, row_mt: true, tile_columns: 2, tile_rows: 2, threads: 0 }
    }

    /// Preset for fast encoding (lower quality)
    pub fn fast() -> (config: Self)
        ensures
            config == (EncoderConfig {
                crf: 35,
                cpu_used: 6,
                row_mt: true,
                tile_columns: 4,
                tile_rows: 4,
                threads: 0,
            }),
    {
        EncoderConfig { crf: 35, cpu_used: 6, row_mt: true, tile_columns: 4, tile_rows: 4, threads: 0 }
    }
}

} // verus!
