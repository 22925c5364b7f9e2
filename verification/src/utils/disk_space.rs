use vstd::prelude::*;

verus! {

/// What a file system reports of itself: the number of blocks free for
/// use, and the size of one in bytes.
#[derive(Debug, Clone, Copy, PartialEq, Eq, Structural)]
pub struct FileSystemStats {
    pub blocks_available: u64,
    pub fragment_size: u64,
}

/// The free bytes of a file system, at most `u64::MAX`; nothing where the
/// file system could not be asked.
pub open spec fn free_bytes(stats: Option<FileSystemStats>) -> Option<u64> {
    match stats {
        Some(s) => {
            let bytes = s.blocks_available * s.fragment_size;
            Some(
                if bytes > u64::MAX {
                    u64::MAX
                } else {
                    bytes as u64
                },
            )
        },
        None => None,
    }
}

/// Get available disk space in bytes from what the file system reported
pub fn available_space(stats: Option<FileSystemStats>) -> (space: Option<u64>)
    ensures
        space == free_bytes(stats),
{
    match stats {
        Some(s) => {
            assert((s.blocks_available as int) * (s.fragment_size as int) <= 0xffff_ffff_ffff_ffff
                * 0xffff_ffff_ffff_ffff) by (nonlinear_arith)
                requires
                    s.blocks_available <= 0xffff_ffff_ffff_ffff,
                    s.fragment_size <= 0xffff_ffff_ffff_ffff,
            ;
            let bytes: u128 = (s.blocks_available as u128) * (s.fragment_size as u128);
            if bytes > u64::MAX as u128 {
                Some(u64::MAX)
            } else {
                Some(bytes as u64)
            }
        },
        None => None,
    }
}

/// Check if there is enough disk space for an estimated output size. Where
/// the space could not be found out, it is taken to suffice.
pub fn has_enough_space(stats: Option<FileSystemStats>, required_bytes: u64) -> (enough: bool)
    ensures
        enough == (match free_bytes(stats) {
            Some(available) => available > required_bytes,
            None => true,
        }),
{
    match available_space(stats) {
        Some(available) => available > required_bytes,
        None => true,
    }
}

} // verus!
