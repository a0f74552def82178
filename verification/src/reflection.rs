//! Shader reflection binder.
//!
//! After a program links, its active uniform blocks carry no declarative
//! binding points: the cross-compiler encodes the `(group, binding)` pair of
//! each block in generated identifier names such as
//! `_group_1_binding_0_vs`. The binder recovers the pair from the name of the
//! first uniform inside the block, or failing that from the block's own name,
//! and falls back to the block's sequential index; the recovered *group* index
//! becomes the native binding point.

use vstd::prelude::*;
use vstd::string::*;

use crate::command::CmdModel;
use crate::command::GlCmd;
use crate::command::models;
use crate::command::Note;
use crate::handle::ProgramHandle;
use crate::text::dec_rep;
use crate::text::find;
use crate::text::is_digit;
use crate::text::lemma_dec_rep;
use crate::text::lemma_digits_len_exact;
use crate::text::lemma_find;
use crate::text::lemma_find_is;
use crate::text::find_str;
use crate::text::matches_at;
use crate::text::parse_u32_prefix;
use crate::text::parse_u32_prefix_str;
use crate::text::u32_to_dec;

verus! {

/// The pair recovered from a generated uniform name such as
/// `_group_1_binding_0_vs.worldPos`: the number after the first `_group_` and
/// the number after the first `_binding_` that follows it.
pub open spec fn spec_parse_group_binding(name: Seq<char>) -> Option<(u32, u32)> {
    match find(name, "_group_"@) {
        None => None,
        Some(gp) => {
            let after_group = name.skip(gp + "_group_"@.len() as int);
            match parse_u32_prefix(after_group) {
                None => None,
                Some(g) => match find(after_group, "_binding_"@) {
                    None => None,
                    Some(bp) => {
                        let after_binding = after_group.skip(bp + "_binding_"@.len() as int);
                        match parse_u32_prefix(after_binding) {
                            None => None,
                            Some(b) => Some((g, b)),
                        }
                    },
                },
            }
        },
    }
}

/// Recover `(group, binding)` from a generated uniform name.
pub fn parse_group_binding_from_name(name: &str) -> (r: Option<(u32, u32)>)
    ensures
        r == spec_parse_group_binding(name@),
{
    let n = name.unicode_len();
    match find_str(name, "_group_") {
        None => None,
        Some(gp) => {
            proof {
                lemma_find(name@, "_group_"@);
            }
            let m = "_group_".unicode_len();
            let after_group = name.substring_char(gp + m, n);
            proof {
                assert(after_group@ =~= name@.skip(gp + "_group_"@.len() as int));
            }
            match parse_u32_prefix_str(after_group) {
                None => None,
                Some(g) => {
                    let an = after_group.unicode_len();
                    match find_str(after_group, "_binding_") {
                        None => None,
                        Some(bp) => {
                            proof {
                                lemma_find(after_group@, "_binding_"@);
                            }
                            let bm = "_binding_".unicode_len();
                            let after_binding = after_group.substring_char(bp + bm, an);
                            proof {
                                assert(after_binding@ =~= after_group@.skip(
                                    bp + "_binding_"@.len() as int,
                                ));
                            }
                            match parse_u32_prefix_str(after_binding) {
                                None => None,
                                Some(b) => Some((g, b)),
                            }
                        },
                    }
                },
            }
        },
    }
}

/// First stage of block-name parsing: a full `_group_G ... _binding_B` pair in
/// the block's own name recovers the pair, and the *group* index becomes the
/// binding point; the stage matches only when both numbers parse.
pub open spec fn spec_block_name_group_binding(name: Seq<char>) -> Option<u32> {
    match spec_parse_group_binding(name) {
        Some((g, _b)) => Some(g),
        None => None,
    }
}

/// Second stage: a number right after `_binding` (no trailing underscore).
pub open spec fn spec_block_name_binding(name: Seq<char>) -> Option<u32> {
    match find(name, "_binding"@) {
        None => None,
        Some(bp) => parse_u32_prefix(name.skip(bp + "_binding"@.len() as int)),
    }
}

/// Third stage: the sequential number after `_block_`.
pub open spec fn spec_block_name_block_index(name: Seq<char>) -> Option<u32> {
    match find(name, "_block_"@) {
        None => None,
        Some(bp) => parse_u32_prefix(name.skip(bp + "_block_"@.len() as int)),
    }
}

/// The binding point recovered from a block's own name, trying the
/// `_group_G_binding_B` pair first (whose group index is the binding point),
/// then a bare `_binding` number, then the `_block_N` sequential number.
pub open spec fn spec_parse_binding_from_block_name(name: Seq<char>) -> Option<u32> {
    if spec_block_name_group_binding(name) is Some {
        spec_block_name_group_binding(name)
    } else if spec_block_name_binding(name) is Some {
        spec_block_name_binding(name)
    } else {
        spec_block_name_block_index(name)
    }
}

/// Recover a binding point from a generated uniform block name.
pub fn parse_binding_from_block_name(name: &str) -> (r: Option<u32>)
    ensures
        r == spec_parse_binding_from_block_name(name@),
{
    let n = name.unicode_len();
    // the full `_group_G ... _binding_B` pair in the block name: its group
    // index is the binding point
    match parse_group_binding_from_name(name) {
        None => {},
        Some((g, _b)) => {
            return Some(g);
        },
    }
    // a number right after `_binding`
    match find_str(name, "_binding") {
        None => {},
        Some(bp) => {
            proof {
                lemma_find(name@, "_binding"@);
            }
            let m = "_binding".unicode_len();
            let after = name.substring_char(bp + m, n);
            proof {
                assert(after@ =~= name@.skip(bp + "_binding"@.len() as int));
            }
            match parse_u32_prefix_str(after) {
                None => {},
                Some(b) => {
                    return Some(b);
                },
            }
        },
    }
    // the sequential number after `_block_`
    match find_str(name, "_block_") {
        None => {},
        Some(bp) => {
            proof {
                lemma_find(name@, "_block_"@);
            }
            let m = "_block_".unicode_len();
            let after = name.substring_char(bp + m, n);
            proof {
                assert(after@ =~= name@.skip(bp + "_block_"@.len() as int));
            }
            match parse_u32_prefix_str(after) {
                None => {},
                Some(b) => {
                    return Some(b);
                },
            }
        },
    }
    None
}

/// How a block's binding point was recovered.
#[derive(Clone, Copy, Debug, PartialEq, Eq, Structural)]
pub enum BindingPointSource {
    /// Parsed from the name of the first uniform inside the block.
    UniformName,
    /// Parsed from the block's own name.
    BlockName,
    /// Fallen back to the block's sequential index.
    BlockIndex,
}

/// Reflection data of one active uniform block, as the shell reads it from the
/// linked program.
#[derive(Clone, Debug)]
pub struct UniformBlockInfo {
    /// The block's sequential index in the program's reflection data.
    pub block_index: u32,
    /// The block's own name.
    pub block_name: String,
    /// The name of the first uniform inside the block, when the block has one.
    pub first_uniform_name: Option<String>,
}

impl UniformBlockInfo {
    /// The first uniform's name as a character sequence.
    pub open spec fn uniform_view(&self) -> Option<Seq<char>> {
        match self.first_uniform_name {
            Some(u) => Some(u@),
            None => None,
        }
    }
}

/// The binding point of one block and where it came from: the group index
/// parsed from the first uniform's name, else the point recovered from the
/// block's own name (the group index when the name carries the full pair),
/// else the block's sequential index.
pub open spec fn spec_resolve_block(
    block_index: u32,
    block_name: Seq<char>,
    first_uniform: Option<Seq<char>>,
) -> (u32, BindingPointSource) {
    let from_uniform = match first_uniform {
        Some(u) => spec_parse_group_binding(u),
        None => None,
    };
    match from_uniform {
        Some((g, _b)) => (g, BindingPointSource::UniformName),
        None => match spec_parse_binding_from_block_name(block_name) {
            Some(point) => (point, BindingPointSource::BlockName),
            None => (block_index, BindingPointSource::BlockIndex),
        },
    }
}

/// Resolve the binding point of one uniform block.
pub fn resolve_block_binding(
    block_index: u32,
    block_name: &str,
    first_uniform_name: Option<&str>,
) -> (r: (u32, BindingPointSource))
    ensures
        r == spec_resolve_block(
            block_index,
            block_name@,
            match first_uniform_name {
                Some(u) => Some(u@),
                None => None::<Seq<char>>,
            },
        ),
{
    let from_uniform = match first_uniform_name {
        Some(u) => parse_group_binding_from_name(u),
        None => None,
    };
    match from_uniform {
        Some((g, _b)) => (g, BindingPointSource::UniformName),
        None => match parse_binding_from_block_name(block_name) {
            Some(point) => (point, BindingPointSource::BlockName),
            None => (block_index, BindingPointSource::BlockIndex),
        },
    }
}

/// The commands that bind one block: its binding-point assignment, and a
/// logged note when the name matched no convention.
pub open spec fn spec_block_cmds(program: ProgramHandle, info: UniformBlockInfo) -> Seq<CmdModel> {
    let resolved = spec_resolve_block(info.block_index, info.block_name@, info.uniform_view());
    let bind = CmdModel::UniformBlockBinding {
        program,
        block_index: info.block_index,
        binding_point: resolved.0,
    };
    if resolved.1 == BindingPointSource::BlockIndex {
        seq![
            bind,
            CmdModel::Report {
                note: Note::UnrecognizedBlockName { block_index: info.block_index },
            },
        ]
    } else {
        seq![bind]
    }
}

/// The commands that bind a whole list of blocks, in order.
pub open spec fn spec_blocks_cmds(program: ProgramHandle, blocks: Seq<UniformBlockInfo>) -> Seq<
    CmdModel,
>
    decreases blocks.len(),
{
    if blocks.len() == 0 {
        Seq::empty()
    } else {
        spec_blocks_cmds(program, blocks.drop_last()) + spec_block_cmds(program, blocks.last())
    }
}

/// Resolve every active uniform block of a linked program to a native binding
/// point. One binding-point assignment is emitted per block; a block whose
/// names match no convention uses its sequential index and is reported.
pub fn resolve_uniform_block_bindings(program: ProgramHandle, blocks: &Vec<UniformBlockInfo>) -> (r:
    Vec<GlCmd>)
    ensures
        models(r@) == spec_blocks_cmds(program, blocks@),
{
    let mut cmds: Vec<GlCmd> = Vec::new();
    let mut i: usize = 0;
    while i < blocks.len()
        invariant
            i <= blocks@.len(),
            models(cmds@) == spec_blocks_cmds(program, blocks@.take(i as int)),
        decreases blocks@.len() - i,
    {
        let info = &blocks[i];
        let resolved = resolve_block_binding(
            info.block_index,
            info.block_name.as_str(),
            match &info.first_uniform_name {
                Some(u) => Some(u.as_str()),
                None => None,
            },
        );
        cmds.push(
            GlCmd::UniformBlockBinding {
                program,
                block_index: info.block_index,
                binding_point: resolved.0,
            },
        );
        if resolved.1 == BindingPointSource::BlockIndex {
            cmds.push(
                GlCmd::Report {
                    note: Note::UnrecognizedBlockName { block_index: info.block_index },
                },
            );
        }
        proof {
            assert(blocks@.take(i + 1).drop_last() =~= blocks@.take(i as int));
            assert(blocks@.take(i + 1).last() == blocks@[i as int]);
            assert(models(cmds@) =~= spec_blocks_cmds(program, blocks@.take(i + 1)));
        }
        i = i + 1;
    }
    proof {
        assert(blocks@.take(blocks@.len() as int) =~= blocks@);
    }
    cmds
}

/// The uniform name the cross-compiler generates for `(group, binding)`,
/// followed by a stage suffix.
pub open spec fn uniform_name_seq(g: u32, b: u32, suffix: Seq<char>) -> Seq<char> {
    "_group_"@ + dec_rep(g as nat) + "_binding_"@ + dec_rep(b as nat) + suffix
}

/// Build the uniform name the cross-compiler generates for a sampler at
/// `(group_index, binding)` in the given stage.
pub fn sampler_uniform_name(group_index: u32, binding: u32, fragment: bool) -> (r: String)
    ensures
        r@ == uniform_name_seq(
            group_index,
            binding,
            if fragment {
                "_fs"@
            } else {
                "_vs"@
            },
        ),
{
    let mut s = "_group_".to_owned();
    s.append(u32_to_dec(group_index).as_str());
    s.append("_binding_");
    s.append(u32_to_dec(binding).as_str());
    if fragment {
        s.append("_fs");
    } else {
        s.append("_vs");
    }
    proof {
        assert(s@ =~= uniform_name_seq(
            group_index,
            binding,
            if fragment {
                "_fs"@
            } else {
                "_vs"@
            },
        ));
    }
    s
}

/// A name following the recognized convention parses back to its own
/// `(group, binding)` pair, whatever stage suffix follows, as long as the
/// suffix does not begin with a digit.
pub proof fn lemma_convention_parses(g: u32, b: u32, suffix: Seq<char>)
    requires
        suffix.len() == 0 || !is_digit(suffix[0]),
    ensures
        spec_parse_group_binding(uniform_name_seq(g, b, suffix)) == Some((g, b)),
{
    reveal_strlit("_group_");
    reveal_strlit("_binding_");
    let gpat = "_group_"@;
    let bpat = "_binding_"@;
    lemma_dec_rep(g as nat);
    lemma_dec_rep(b as nat);
    let dg = dec_rep(g as nat);
    let db = dec_rep(b as nat);
    let name = uniform_name_seq(g, b, suffix);
    // the name begins with `_group_`
    assert(name.subrange(0, gpat.len() as int) =~= gpat);
    assert(matches_at(name, gpat, 0));
    lemma_find_is(name, gpat, 0);
    // after it stand the group digits, then `_binding_`
    let ag = name.skip(gpat.len() as int);
    assert(ag =~= dg + bpat + db + suffix);
    assert(!is_digit('_')) by {
        assert('_' as u32 == 95);
    }
    assert(forall|j: int| 0 <= j < dg.len() ==> is_digit(ag[j]));
    assert(ag[dg.len() as int] == '_');
    lemma_digits_len_exact(ag, dg.len() as int);
    assert(ag.take(dg.len() as int) =~= dg);
    // the digits denote the group
    assert(parse_u32_prefix(ag) == Some(g));
    // `_binding_` is found right after the group digits
    assert(ag.subrange(dg.len() as int, dg.len() + bpat.len() as int) =~= bpat);
    assert(matches_at(ag, bpat, dg.len() as int));
    assert forall|j: int| 0 <= j < dg.len() implies !matches_at(ag, bpat, j) by {
        if matches_at(ag, bpat, j) {
            assert(ag.subrange(j, j + bpat.len() as int)[0] == ag[j]);
        }
    }
    lemma_find_is(ag, bpat, dg.len() as int);
    // after it stand the binding digits, then the suffix
    let ab = ag.skip(dg.len() + bpat.len() as int);
    assert(ab =~= db + suffix);
    assert(forall|j: int| 0 <= j < db.len() ==> is_digit(ab[j]));
    if suffix.len() > 0 {
        assert(!is_digit(ab[db.len() as int]));
    }
    lemma_digits_len_exact(ab, db.len() as int);
    assert(ab.take(db.len() as int) =~= db);
    assert(parse_u32_prefix(ab) == Some(b));
}

/// For every name following the recognized convention, the binder resolves the
/// native binding point to exactly the group index.
pub proof fn lemma_binder_resolves_group(
    block_index: u32,
    block_name: Seq<char>,
    g: u32,
    b: u32,
    suffix: Seq<char>,
)
    requires
        suffix.len() == 0 || !is_digit(suffix[0]),
    ensures
        spec_resolve_block(block_index, block_name, Some(uniform_name_seq(g, b, suffix))) == (
            g,
            BindingPointSource::UniformName,
        ),
{
    lemma_convention_parses(g, b, suffix);
}

/// A full pair in the block's own name also resolves to the group index, for
/// a block whose first uniform's name recovers nothing (or which has none).
pub proof fn lemma_block_name_resolves_group(
    block_index: u32,
    g: u32,
    b: u32,
    suffix: Seq<char>,
    first_uniform: Option<Seq<char>>,
)
    requires
        suffix.len() == 0 || !is_digit(suffix[0]),
        match first_uniform {
            Some(u) => spec_parse_group_binding(u) is None,
            None => true,
        },
    ensures
        spec_resolve_block(block_index, uniform_name_seq(g, b, suffix), first_uniform) == (
            g,
            BindingPointSource::BlockName,
        ),
{
    lemma_convention_parses(g, b, suffix);
}

/// For a block whose names match no recognized convention, the binder falls
/// back to the block's sequential index, and says so.
pub proof fn lemma_binder_fallback(
    block_index: u32,
    block_name: Seq<char>,
    first_uniform: Option<Seq<char>>,
)
    requires
        match first_uniform {
            Some(u) => spec_parse_group_binding(u) is None,
            None => true,
        },
        spec_parse_binding_from_block_name(block_name) is None,
    ensures
        spec_resolve_block(block_index, block_name, first_uniform) == (
            block_index,
            BindingPointSource::BlockIndex,
        ),
{
}

} // verus!
