//! Configuration of the external-texture benchmark and its validation.
use vstd::prelude::*;

use crate::sorted_set::{same_elements, sorted_distinct, strictly_increasing};
use crate::list_parse::{
    all_entries_parse, entries, invalid_entry_message, parse_bounded, parse_list, parse_usize,
    parse_value_u16, parse_value_usize,
};
use crate::text::{decimal, u64_to_decimal};

verus! {

/// One benchmark run: the image counts to sweep and the texture pool to draw from.
#[derive(Clone, Debug)]
pub struct BenchConfig {
    pub image_counts: Vec<usize>,
    pub texture_size: u16,
    pub texture_count: usize,
    pub draw_size: u16,
    pub warmup_frames: usize,
    pub measured_frames: usize,
    pub trials: usize,
    pub memory_limit_mib: usize,
}

/// Bytes in one mebibyte.
pub const MIB: u64 = 1048576;

/// Bytes resident for the paired texture sets: every texture is held once in
/// Vello's image atlas and once as a standalone external texture, 4 bytes per pixel.
pub open spec fn spec_texture_set_bytes(texture_size: u16, texture_count: usize) -> int {
    texture_size as int * texture_size as int * 4 * texture_count as int * 2
}

/// The configured memory limit in bytes.
pub open spec fn spec_memory_limit_bytes(memory_limit_mib: usize) -> int {
    memory_limit_mib as int * MIB as int
}

/// `a / b` rounded up (`b > 0`).
pub open spec fn ceil_div(a: int, b: int) -> int {
    if a % b == 0 { a / b } else { a / b + 1 }
}

/// All checks before the memory check pass, so the byte counts are computed.
pub open spec fn reaches_memory_check(c: BenchConfig, max_texture_size: u32) -> bool {
    &&& c.image_counts@.len() > 0
    &&& !c.image_counts@.contains(0)
    &&& c.texture_size >= 4
    &&& c.texture_size as u32 <= max_texture_size
    &&& c.texture_count >= 2
    &&& !(c.warmup_frames == 0 || c.measured_frames < 10 || c.trials == 0)
}

/// The error that validation reports for `c`, if any; the checks run in this order.
pub open spec fn validation_error(c: BenchConfig, max_texture_size: u32) -> Option<Seq<char>> {
    if c.image_counts@.len() == 0 {
        Some("provide at least one image count"@)
    } else if c.image_counts@.contains(0) {
        Some("image counts must be greater than zero"@)
    } else if c.texture_size < 4 {
        Some("the texture size must be at least 4 pixels"@)
    } else if c.texture_size as u32 > max_texture_size {
        Some("the requested texture exceeds this device's "@ + decimal(max_texture_size as nat)
            + "px limit"@)
    } else if c.texture_count < 2 {
        Some("use at least 2 textures so adjacent images cannot merge into one run"@)
    } else if c.warmup_frames == 0 || c.measured_frames < 10 || c.trials == 0 {
        Some("use at least 1 warmup frame, 10 measured frames, and 1 measurement"@)
    } else if spec_texture_set_bytes(c.texture_size, c.texture_count) > spec_memory_limit_bytes(
        c.memory_limit_mib,
    ) {
        Some(
            "the paired texture sets need "@ + decimal(
                ceil_div(spec_texture_set_bytes(c.texture_size, c.texture_count), MIB as int) as nat,
            ) + " MiB, exceeding the configured "@ + decimal(c.memory_limit_mib as nat)
                + " MiB limit"@,
        )
    } else {
        None
    }
}

/// The error of a list field whose entries do not all parse: the first bad entry.
pub open spec fn list_field_error(message: Seq<char>, text: Seq<char>, label: Seq<char>) -> bool {
    exists|k: int|
        {
            &&& 0 <= k < entries(text).len()
            &&& parse_usize(#[trigger] entries(text)[k]) is None
            &&& forall|j: int| 0 <= j < k ==> (#[trigger] parse_usize(entries(text)[j])) is Some
            &&& message == invalid_entry_message(label, entries(text)[k])
        }
}

impl BenchConfig {
    /// Builds a configuration from the setup form's fields, reading them in
    /// order; the error names the first field that does not parse.
    pub fn from_fields(
        image_counts: &str,
        texture_size: &str,
        texture_count: &str,
        draw_size: &str,
        warmup_frames: &str,
        measured_frames: &str,
        trials: &str,
        memory_limit_mib: &str,
    ) -> (r: Result<BenchConfig, String>)
        ensures
            match r {
                Ok(c) => {
                    &&& all_entries_parse(entries(image_counts@))
                    &&& c.image_counts@.len() == entries(image_counts@).len()
                    &&& forall|k: int|
                        0 <= k < c.image_counts@.len() ==> Some(#[trigger] c.image_counts@[k])
                            == parse_usize(entries(image_counts@)[k])
                    &&& parse_bounded(texture_size@, 65535) == Some(c.texture_size as usize)
                    &&& parse_usize(texture_count@) == Some(c.texture_count)
                    &&& parse_bounded(draw_size@, 65535) == Some(c.draw_size as usize)
                    &&& parse_usize(warmup_frames@) == Some(c.warmup_frames)
                    &&& parse_usize(measured_frames@) == Some(c.measured_frames)
                    &&& parse_usize(trials@) == Some(c.trials)
                    &&& parse_usize(memory_limit_mib@) == Some(c.memory_limit_mib)
                },
                Err(e) => if !all_entries_parse(entries(image_counts@)) {
                    list_field_error(e@, image_counts@, "image counts"@)
                } else if parse_bounded(texture_size@, 65535) is None {
                    e@ == "invalid "@ + "texture size"@
                } else if parse_usize(texture_count@) is None {
                    e@ == "invalid "@ + "texture count"@
                } else if parse_bounded(draw_size@, 65535) is None {
                    e@ == "invalid "@ + "draw size"@
                } else if parse_usize(warmup_frames@) is None {
                    e@ == "invalid "@ + "warmup frames"@
                } else if parse_usize(measured_frames@) is None {
                    e@ == "invalid "@ + "measured frames"@
                } else if parse_usize(trials@) is None {
                    e@ == "invalid "@ + "measurements"@
                } else {
                    &&& parse_usize(memory_limit_mib@) is None
                    &&& e@ == "invalid "@ + "memory limit"@
                },
            },
    {
        let image_counts = parse_list(image_counts, "image counts")?;
        let texture_size = parse_value_u16(texture_size, "texture size")?;
        let texture_count = parse_value_usize(texture_count, "texture count")?;
        let draw_size = parse_value_u16(draw_size, "draw size")?;
        let warmup_frames = parse_value_usize(warmup_frames, "warmup frames")?;
        let measured_frames = parse_value_usize(measured_frames, "measured frames")?;
        let trials = parse_value_usize(trials, "measurements")?;
        let memory_limit_mib = parse_value_usize(memory_limit_mib, "memory limit")?;
        Ok(
            BenchConfig {
                image_counts,
                texture_size,
                texture_count,
                draw_size,
                warmup_frames,
                measured_frames,
                trials,
                memory_limit_mib,
            },
        )
    }

    /// Sorts the image counts and drops repeats, then checks the configuration
    /// against the device's texture size limit and the memory limit.
    pub fn validate(&mut self, max_texture_size: u32) -> (r: Result<(), String>)
        requires
            reaches_memory_check(*old(self), max_texture_size) ==> {
                &&& spec_texture_set_bytes(old(self).texture_size, old(self).texture_count)
                    <= u64::MAX
                &&& spec_memory_limit_bytes(old(self).memory_limit_mib) <= u64::MAX
            },
        ensures
            strictly_increasing(final(self).image_counts@),
            same_elements(final(self).image_counts@, old(self).image_counts@),
            final(self).texture_size == old(self).texture_size,
            final(self).texture_count == old(self).texture_count,
            final(self).draw_size == old(self).draw_size,
            final(self).warmup_frames == old(self).warmup_frames,
            final(self).measured_frames == old(self).measured_frames,
            final(self).trials == old(self).trials,
            final(self).memory_limit_mib == old(self).memory_limit_mib,
            match r {
                Ok(()) => validation_error(*old(self), max_texture_size) is None,
                Err(e) => validation_error(*old(self), max_texture_size) == Some(e@),
            },
    {
        let ghost initial = *self;
        self.image_counts = sorted_distinct(&self.image_counts);
        assert(self.image_counts@.contains(0) == initial.image_counts@.contains(0));
        assert(self.image_counts@.len() == 0 <==> initial.image_counts@.len() == 0) by {
            if initial.image_counts@.len() > 0 {
                assert(initial.image_counts@.contains(initial.image_counts@[0]));
            }
            if self.image_counts@.len() > 0 {
                assert(self.image_counts@.contains(self.image_counts@[0]));
            }
        }

        if self.image_counts.len() == 0 {
            return Err(String::from_str("provide at least one image count"));
        }
        // The smallest count comes first, so it is zero exactly when any count is.
        assert(self.image_counts@.contains(0) <==> self.image_counts@[0] == 0) by {
            if self.image_counts@.contains(0) {
                let i = choose|i: int|
                    0 <= i < self.image_counts@.len() && self.image_counts@[i] == 0;
                if i > 0 {
                    assert(self.image_counts@[0] < self.image_counts@[i]);
                }
            }
        }
        if self.image_counts[0] == 0 {
            return Err(String::from_str("image counts must be greater than zero"));
        }
        if self.texture_size < 4 {
            return Err(String::from_str("the texture size must be at least 4 pixels"));
        }
        if self.texture_size as u32 > max_texture_size {
            let mut message = String::from_str("the requested texture exceeds this device's ");
            message.append(u64_to_decimal(max_texture_size as u64).as_str());
            message.append("px limit");
            return Err(message);
        }
        if self.texture_count < 2 {
            return Err(
                String::from_str(
                    "use at least 2 textures so adjacent images cannot merge into one run",
                ),
            );
        }
        if self.warmup_frames == 0 || self.measured_frames < 10 || self.trials == 0 {
            return Err(
                String::from_str(
                    "use at least 1 warmup frame, 10 measured frames, and 1 measurement",
                ),
            );
        }
        let needed = self.texture_set_bytes();
        if needed > self.memory_limit_bytes() {
            let needed_mib = if needed % MIB == 0 {
                needed / MIB
            } else {
                needed / MIB + 1
            };
            let mut message = String::from_str("the paired texture sets need ");
            message.append(u64_to_decimal(needed_mib).as_str());
            message.append(" MiB, exceeding the configured ");
            message.append(u64_to_decimal(self.memory_limit_mib as u64).as_str());
            message.append(" MiB limit");
            return Err(message);
        }
        Ok(())
    }

    /// Number of image-count variants that a run sweeps.
    pub fn variant_count(&self) -> (n: usize)
        ensures
            n == self.image_counts@.len(),
    {
        self.image_counts.len()
    }

    /// Bytes needed to hold the paired texture sets.
    pub fn texture_set_bytes(&self) -> (bytes: u64)
        requires
            spec_texture_set_bytes(self.texture_size, self.texture_count) <= u64::MAX,
        ensures
            bytes == spec_texture_set_bytes(self.texture_size, self.texture_count),
    {
        let side = self.texture_size as u64;
        assert(side * side * 4 <= 65535u64 * 65535u64 * 4) by (nonlinear_arith)
            requires
                side <= 65535,
        ;
        let pixels_bytes = side * side * 4;
        let count = self.texture_count as u64;
        assert(pixels_bytes * count * 2 == spec_texture_set_bytes(
            self.texture_size,
            self.texture_count,
        ));
        assert(pixels_bytes * count <= u64::MAX) by (nonlinear_arith)
            requires
                pixels_bytes * count * 2 <= u64::MAX,
                pixels_bytes >= 0,
                count >= 0,
        ;
        pixels_bytes * count * 2
    }

    /// The memory limit in bytes.
    pub fn memory_limit_bytes(&self) -> (bytes: u64)
        requires
            spec_memory_limit_bytes(self.memory_limit_mib) <= u64::MAX,
        ensures
            bytes == spec_memory_limit_bytes(self.memory_limit_mib),
    {
        self.memory_limit_mib as u64 * MIB
    }
}

/// `after` is what validating `before` leaves: the image counts sorted
/// without repeats, every other field as it was.
pub open spec fn validated_from(after: BenchConfig, before: BenchConfig) -> bool {
    &&& strictly_increasing(after.image_counts@)
    &&& same_elements(after.image_counts@, before.image_counts@)
    &&& after.texture_size == before.texture_size
    &&& after.texture_count == before.texture_count
    &&& after.draw_size == before.draw_size
    &&& after.warmup_frames == before.warmup_frames
    &&& after.measured_frames == before.measured_frames
    &&& after.trials == before.trials
    &&& after.memory_limit_mib == before.memory_limit_mib
}

/// Validation is idempotent: validating an already validated configuration
/// gives the same answer and leaves it unchanged.
pub proof fn lemma_validate_idempotent(
    initial: BenchConfig,
    once: BenchConfig,
    twice: BenchConfig,
    max_texture_size: u32,
)
    requires
        validated_from(once, initial),
        validated_from(twice, once),
    ensures
        validation_error(once, max_texture_size) == validation_error(initial, max_texture_size),
        validation_error(twice, max_texture_size) == validation_error(once, max_texture_size),
        twice.image_counts@ == once.image_counts@,
{
    let a = initial.image_counts@;
    let b = once.image_counts@;
    assert(b.contains(0) == a.contains(0));
    assert(b.len() == 0 <==> a.len() == 0) by {
        if a.len() > 0 {
            assert(a.contains(a[0]));
        }
        if b.len() > 0 {
            assert(b.contains(b[0]));
        }
    }
    crate::sorted_set::lemma_strictly_increasing_unique(twice.image_counts@, b);
}

/// After validation the number of variants is the number of distinct image
/// counts that were given: sorting and dropping repeats keeps each count once.
pub proof fn lemma_variant_count_distinct(after: Seq<usize>, before: Seq<usize>)
    requires
        strictly_increasing(after),
        same_elements(after, before),
    ensures
        after.len() == before.to_set().len(),
{
    assert(after.no_duplicates()) by {
        assert forall|i: int, j: int| 0 <= i < after.len() && 0 <= j < after.len() && i != j implies after[i]
            != after[j] by {
            if i < j {
            } else {
            }
        }
    }
    after.unique_seq_to_set();
    assert(after.to_set() =~= before.to_set()) by {
        assert forall|x: usize| after.to_set().contains(x) <==> before.to_set().contains(x) by {
            assert(after.contains(x) <==> before.contains(x));
        }
    }
}

} // verus!
