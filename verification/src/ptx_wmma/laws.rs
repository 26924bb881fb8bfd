//! What holds of the modules as a whole.
use vstd::prelude::*;

use crate::ptx_wmma::act;
use crate::ptx_wmma::frames;
use crate::ptx_wmma::mma;
use crate::ptx_wmma::mma_pipe;
use crate::ptx_wmma::modules;
use crate::ptx_wmma::parts;
use crate::ptx_wmma::pipeline;
use crate::ptx_wmma::plain;
use crate::ptx_wmma::scan;
use crate::ptx_wmma::scan::Sym;
use crate::ptx_wmma::smem;
use crate::ptx_wmma::smem_db;
use crate::ptx_wmma::spelling;
use crate::ptx_wmma::tables;
use crate::ptx_wmma::templates;
use crate::ptx_wmma::wmma_frames;
use crate::smem_mode;
use crate::text;

verus! {

/// Whether a module begins with the header of the oldest device that it is for.
#[verifier::opaque]
pub open spec fn opens(t: Seq<char>) -> bool {
    &&& modules::HDR_SM80@.len() <= t.len()
    &&& t.take(modules::HDR_SM80@.len() as int) == modules::HDR_SM80@
}

/// What follows does not change how a module begins.
broadcast proof fn lemma_opens(a: Seq<char>, b: Seq<char>)
    requires
        opens(a),
    ensures
        #[trigger] opens(a + b),
{
    reveal(opens);
    let n = modules::HDR_SM80@.len() as int;
    assert((a + b).take(n) =~= a.take(n));
}

/// The header begins with itself.
proof fn lemma_header()
    ensures
        opens(modules::HDR_SM80@),
{
    reveal(opens);
    let h = modules::HDR_SM80@;
    assert(h.take(h.len() as int) =~= h);
}

/// The fp16 module begins with the header of the oldest device: no instruction in it needs a newer
/// one.
pub proof fn law_the_fp16_module_opens_at_the_floor()
    ensures
        opens(modules::wmma_f16_text()),
{
    broadcast use lemma_opens;

    lemma_header();
}

/// As [`law_the_fp16_module_opens_at_the_floor`], of the bf16 module.
pub proof fn law_the_bf16_module_opens_at_the_floor()
    ensures
        opens(modules::wmma_bf16_text()),
{
    broadcast use lemma_opens;

    lemma_header();
}

/// As [`law_the_fp16_module_opens_at_the_floor`], of the other modules.
pub proof fn law_modules_open_at_the_floor(m: usize, n: usize, k: usize, use_128: bool)
    ensures
        opens(modules::gemm_cliff_text()),
        opens(modules::gemm_deep_text()),
        opens(modules::roofline_f16_text()),
        opens(modules::wmma_f16_sm_static_text(m, n, k, use_128)),
{
    broadcast use lemma_opens;

    lemma_header();
}

/// A row's bytes, given its extents.
proof fn lemma_row_bytes(v: tables::CliffCfg, sides: nat, stages: nat)
    requires
        v.bm + v.bn == sides,
        v.stages == stages,
        v.bk == 32,
        v.pad == 0,
    ensures
        v.bytes() == stages * sides * 64,
{
    assert(stages * sides * 32 * 2 == stages * sides * 64) by (nonlinear_arith);
}

/// A row is in the wide grid exactly because the smaller devices cannot run it: every deep row fits
/// those, no wide row does, and every wide row fits a datacenter device.
pub proof fn law_grids_are_split_by_device(i: int)
    ensures
        0 <= i < tables::deep_rows().len() ==> tables::deep_rows()[i].bytes()
            <= tables::DEEP_SMEM_BUDGET,
        0 <= i < tables::wide_rows().len() ==> tables::DEEP_SMEM_BUDGET
            < tables::wide_rows()[i].bytes() <= tables::WIDE_SMEM_BUDGET,
{
    let (deep, wide) = (tables::deep_rows(), tables::wide_rows());
    if 0 <= i < wide.len() {
        lemma_row_bytes(wide[0], 256, 7);
        lemma_row_bytes(wide[1], 384, 5);
        lemma_row_bytes(wide[2], 384, 6);
        lemma_row_bytes(wide[3], 384, 6);
        assert(7nat * 256nat * 64 == 114688 && 5nat * 384nat * 64 == 122880 && 6nat * 384nat * 64
            == 147456) by (nonlinear_arith);
    }
    if 0 <= i < deep.len() {
        let v = deep[i];
        let sides = v.bm as nat + v.bn as nat;
        lemma_row_bytes(v, sides, v.stages as nat);
        let st = v.stages as nat;
        assert(st * sides * 64 <= 98304) by (nonlinear_arith)
            requires
                sides == 256 && st <= 5 || sides == 384 && st <= 4,
        ;
    }
}

/// Regrouping.
proof fn lemma_regroup(q: Seq<char>, a: Seq<char>, b: Seq<char>)
    ensures
        (q + a) + b == q + (a + b),
{
    assert((q + a) + b =~= q + (a + b));
}

/// Two characters that are no hole begin the filled template as they begin the template.
proof fn lemma_begins(t: Seq<char>, args: Seq<Seq<char>>)
    requires
        t.len() >= 2,
        t[0] != '#',
        t[1] != '#',
    ensures
        text::fill(t, args).len() >= 2,
        text::fill(t, args)[0] == t[0],
        text::fill(t, args)[1] == t[1],
    decreases t.len(),
{
    reveal_with_fuel(text::fill, 3);
    if t.len() > 2 {
        lemma_begins(t.drop_last(), args);
    } else {
        assert(t.drop_last().drop_last().len() == 0);
    }
}

/// What follows the launch bounds in a kernel of [`mma_pipe::entry_mma_pipe_budget`].
pub open spec fn after_bounds(
    name: Seq<char>,
    ty: Seq<char>,
    shape: mma::MmaShape,
    e: mma_pipe::Epilogue,
) -> Seq<char> {
    let dynamic = shape.smem_a() + shape.smem_b() > smem_mode::STATIC_SMEM_CAP;
    mma_pipe::buffers(name, shape, dynamic) + mma_pipe::mma_pipe_regs(shape, e)
        + mma_pipe::mma_pipe_setup(shape, e) + pipeline::pipe_start(
        name,
        shape.stages as nat,
        shape.bk as nat,
        shape.tile_a(),
        shape.tile_b(),
        mma_pipe::mma_pipe_copy(name, shape, dynamic),
    ) + mma_pipe::mma_pipe_steps(name, ty, shape, dynamic, shape.bk as nat / 16)
        + pipeline::pipe_step(
        name,
        shape.stages as nat,
        shape.bk as nat,
        shape.tile_a(),
        shape.tile_b(),
    ) + e.tiles(shape.tm(), shape.tn()) + parts::CLOSE@
}

/// Launch bounds change nothing else: they stand once, between the end of the parameter list and
/// the brace that opens the body, and without them the text is the same on both sides.
pub proof fn law_launch_bounds_are_inserted(
    name: Seq<char>,
    ty: Seq<char>,
    shape: mma::MmaShape,
    e: mma_pipe::Epilogue,
    min_ctas: nat,
)
    requires
        min_ctas > 0,
    ensures
        ({
            let front = mma_pipe::signature(name, e);
            let back = after_bounds(name, ty, shape, e);
            &&& mma_pipe::mma_pipe_text(name, ty, shape, e, min_ctas) == front + mma_pipe::bounds(
                shape.threads(),
                min_ctas,
            ) + back
            &&& mma_pipe::mma_pipe_text(name, ty, shape, e, 0) == front + back
            &&& front.len() >= 2 && front.skip(front.len() - 2) == seq![')', '\n']
            &&& back.len() >= 2 && back.take(2) == seq!['{', '\n']
        }),
{
    let dynamic = shape.smem_a() + shape.smem_b() > smem_mode::STATIC_SMEM_CAP;
    let front = mma_pipe::signature(name, e);
    let between = mma_pipe::bounds(shape.threads(), min_ctas);
    let a1 = mma_pipe::buffers(name, shape, dynamic);
    let a2 = mma_pipe::mma_pipe_regs(shape, e);
    let a3 = mma_pipe::mma_pipe_setup(shape, e);
    let a4 = pipeline::pipe_start(
        name,
        shape.stages as nat,
        shape.bk as nat,
        shape.tile_a(),
        shape.tile_b(),
        mma_pipe::mma_pipe_copy(name, shape, dynamic),
    );
    let a5 = mma_pipe::mma_pipe_steps(name, ty, shape, dynamic, shape.bk as nat / 16);
    let a6 = pipeline::pipe_step(
        name,
        shape.stages as nat,
        shape.bk as nat,
        shape.tile_a(),
        shape.tile_b(),
    );
    let a7 = e.tiles(shape.tm(), shape.tn());
    let a8 = parts::CLOSE@;
    assert(front + ""@ =~= front) by {
        reveal_strlit("");
    }
    assert forall|q: Seq<char>| #[trigger]
        (q + a1) + a2 + a3 + a4 + a5 + a6 + a7 + a8 == q + after_bounds(name, ty, shape, e) by {
        lemma_regroup(q, a1, a2);
        lemma_regroup(q, a1 + a2, a3);
        lemma_regroup(q, a1 + a2 + a3, a4);
        lemma_regroup(q, a1 + a2 + a3 + a4, a5);
        lemma_regroup(q, a1 + a2 + a3 + a4 + a5, a6);
        lemma_regroup(q, a1 + a2 + a3 + a4 + a5 + a6, a7);
        lemma_regroup(q, a1 + a2 + a3 + a4 + a5 + a6 + a7, a8);
    }
    assert((front + between + a1) + a2 + a3 + a4 + a5 + a6 + a7 + a8 == front + between
        + after_bounds(name, ty, shape, e));
    assert((front + a1) + a2 + a3 + a4 + a5 + a6 + a7 + a8 == front + after_bounds(
        name,
        ty,
        shape,
        e,
    ));
    lemma_signature_ends(name, e);
    lemma_buffers_begin(name, shape, dynamic);
    let back = after_bounds(name, ty, shape, e);
    assert(back.len() >= 2 && back[0] == a1[0] && back[1] == a1[1]);
    assert(back.take(2) =~= seq!['{', '\n']);
}

/// A signature ends with its closing bracket.
proof fn lemma_signature_ends(name: Seq<char>, e: mma_pipe::Epilogue)
    ensures
        ({
            let front = mma_pipe::signature(name, e);
            front.len() >= 2 && front.skip(front.len() - 2) == seq![')', '\n']
        }),
{
    reveal_strlit(
        ".visible .entry #0(
    .param .u32 pM,
    .param .u32 pN,
    .param .u32 pK,
    .param .u64 pA,
    .param .u64 pB,
    .param .u64 pC#1#2
)
",
    );
    reveal_with_fuel(text::fill, 3);
    let t = parts::OPEN@;
    let n = t.len() as int;
    assert(t[n - 1] == '\n' && t[n - 2] == ')' && t[n - 3] == '\n');
    let front = mma_pipe::signature(name, e);
    assert(front.skip(front.len() - 2) =~= seq![')', '\n']);
}

/// The body begins with its brace.
proof fn lemma_buffers_begin(name: Seq<char>, shape: mma::MmaShape, dynamic: bool)
    ensures
        mma_pipe::buffers(name, shape, dynamic).len() >= 2,
        mma_pipe::buffers(name, shape, dynamic)[0] == '{',
        mma_pipe::buffers(name, shape, dynamic)[1] == '\n',
{
    if dynamic {
        reveal_strlit("{\n");
    } else {
        reveal_strlit(
            "{
    .shared .align 16 .b8 smemA_#0[#1];
    .shared .align 16 .b8 smemB_#0[#2];
",
        );
        lemma_begins(
            smem::BUFFERS@,
            seq![name, text::dec(shape.smem_a()), text::dec(shape.smem_b())],
        );
    }
}

/// The plain kernel has no epilogue: no activation is no instruction, for any number of registers.
pub proof fn law_the_identity_is_no_instruction(prefix: Seq<char>, n: nat)
    ensures
        act::Act::Identity.epilogues_text(prefix, n) == Seq::<char>::empty(),
    decreases n,
{
    reveal(act::Act::epilogues_text);
    if n > 0 {
        law_the_identity_is_no_instruction(prefix, (n - 1) as nat);
    }
}

/// Both directives of launch bounds are words of the kind that a reader is lost on.
proof fn lemma_directives()
    ensures
        spelling::bound_word(".maxntid"@),
        spelling::bound_word(".minnctapersm"@),
{
    reveal_strlit(".maxntid");
    reveal_strlit(".minnctapersm");
}

/// Without launch bounds a kernel holds neither of their directives, unless its name holds one, or
/// its type with the dot that stands before it.
pub proof fn law_no_bounds_no_directive(
    name: Seq<char>,
    ty: Seq<char>,
    shape: mma::MmaShape,
    e: mma_pipe::Epilogue,
)
    requires
        spelling::lacks(name, ".maxntid"@),
        spelling::lacks(name, ".minnctapersm"@),
        spelling::lacks(seq!['.'] + ty, ".maxntid"@),
        spelling::lacks(seq!['.'] + ty, ".minnctapersm"@),
    ensures
        spelling::lacks(mma_pipe::mma_pipe_text(name, ty, shape, e, 0), ".maxntid"@),
        spelling::lacks(mma_pipe::mma_pipe_text(name, ty, shape, e, 0), ".minnctapersm"@),
{
    let s = frames::frame_mma_pipe(shape, e, ty);
    let x = scan::put(s, name, ty);
    assert(spelling::mark() + x == mma_pipe::mma_pipe_text(name, ty, shape, e, 0));
    lemma_directives();
    spelling::lemma_lacks_word(s, scan::neutral(), name, ty, ".maxntid"@);
    spelling::lemma_lacks_word(s, scan::neutral(), name, ty, ".minnctapersm"@);
    spelling::lemma_behind_mark(x, ".maxntid"@);
    spelling::lemma_behind_mark(x, ".minnctapersm"@);
}

/// A pipelined kernel without launch bounds is one text for every name: pieces that do not depend on
/// the name, with the name between them.
pub proof fn law_a_pipelined_kernel_is_one_text(
    ty: Seq<char>,
    shape: mma::MmaShape,
    e: mma_pipe::Epilogue,
) -> (s: Seq<Sym<char>>)
    ensures
        forall|name: Seq<char>|
            spelling::mark() + #[trigger] scan::put(s, name, ty) == mma_pipe::mma_pipe_text(
                name,
                ty,
                shape,
                e,
                0,
            ),
{
    frames::frame_mma_pipe(shape, e, ty)
}

/// The type of the grids.
proof fn lemma_f16()
    ensures
        "f16"@.len() > 0,
        "f16"@[0] != 'v',
        forall|j: int| 0 <= j < "f16"@.len() ==> #[trigger] "f16"@[j] != '.' && "f16"@[j] != '_',
{
    reveal_strlit("f16");
}

/// A row without launch bounds as a kernel whose name is left open.
proof fn frame_row(v: tables::CliffCfg) -> (s: Seq<Sym<char>>)
    requires
        v.min_ctas == 0,
    ensures
        spelling::kernel(s),
        forall|name: Seq<char>|
            spelling::mark() + #[trigger] scan::put(s, name, "f16"@) == mma_pipe::mma_pipe_text(
                name,
                "f16"@,
                v.shape(),
                (mma_pipe::Epilogue {
                    act: act::Act::Identity,
                    bias: false,
                    residual: false,
                    store: v.store,
                }),
                0,
            ),
        spelling::mark() + scan::put(s, v.name@, "f16"@) == modules::row_text(v),
{
    let e = mma_pipe::Epilogue {
        act: act::Act::Identity,
        bias: false,
        residual: false,
        store: v.store,
    };
    let s = frames::frame_mma_pipe(v.shape(), e, "f16"@);
    assert(spelling::mark() + scan::put(s, v.name@, "f16"@) == modules::row_text(v));
    s
}

/// Every row begins with the mark of an entry.
proof fn lemma_row_marked(v: tables::CliffCfg)
    ensures
        spelling::stands(modules::row_text(v), spelling::mark(), 0),
{
    broadcast use spelling::lemma_stands_first;

    frames::lemma_open_marked(seq![v.name@, ""@, ""@]);
}

/// What follows a row of a grid: nothing, or another entry.
proof fn lemma_rows_after(rows: Seq<tables::CliffCfg>, k: nat, n: nat) -> (after: Seq<char>)
    requires
        k < n <= rows.len(),
    ensures
        modules::rows_text(rows, n) == modules::rows_text(rows, k) + modules::row_text(
            rows[k as int],
        ) + after,
        after.len() == 0 || spelling::stands(after, spelling::mark(), 0),
        n > k + 1 ==> after.len() > 0,
    decreases n,
{
    reveal(modules::rows_text);
    let row = modules::rows_text(rows, k) + modules::row_text(rows[k as int]);
    if n == k + 1 {
        let none = Seq::<char>::empty();
        assert(row + none =~= row);
        none
    } else {
        let front = lemma_rows_after(rows, k, (n - 1) as nat);
        let last = modules::row_text(rows[n - 1]);
        let m = spelling::mark();
        lemma_row_marked(rows[n - 1]);
        assert(row + (front + last) =~= (row + front) + last);
        assert(m.len() > 0) by {
            reveal_strlit(".visible .entry ");
        }
        if front.len() == 0 {
            assert(front + last =~= last);
        } else {
            assert((front + last).subrange(0, m.len() as int) =~= front.subrange(
                0,
                m.len() as int,
            ));
        }
        front + last
    }
}

/// The header begins no entry.
proof fn lemma_header_quiet()
    ensures
        spelling::quiet(modules::HDR_SM80@),
        spelling::quiet(modules::DSMEM_DECL@),
        spelling::quiet(""@),
{
    reveal_strlit("");
    reveal_strlit(
        ".version 7.8
.target sm_80
.address_size 64
",
    );
    reveal_strlit(".extern .shared .align 16 .b8 wk_dsmem[];\n");
    reveal_with_fuel(no_entry_from, 50);
    lemma_no_entry_from(modules::HDR_SM80@, 0);
    lemma_no_entry_from(modules::DSMEM_DECL@, 0);
}

/// Whether no entry begins from the character `i` on.
spec fn no_entry_from(x: Seq<char>, i: int) -> bool
    decreases x.len() - i,
{
    if i >= x.len() - 2 {
        true
    } else if x[i] == '.' {
        !(x[i + 1] == 'v' && x[i + 2] == 'i') && no_entry_from(x, i + 1)
    } else {
        no_entry_from(x, i + 1)
    }
}

/// See [`no_entry_from`].
proof fn lemma_no_entry_from(x: Seq<char>, i: int)
    requires
        i >= 0,
        no_entry_from(x, i),
    ensures
        forall|j: int|
            i <= j < x.len() - 2 ==> !(#[trigger] x[j] == '.' && x[j + 1] == 'v' && x[j + 2]
                == 'i'),
    decreases x.len() - i,
{
    if i < x.len() - 2 {
        lemma_no_entry_from(x, i + 1);
    }
}

/// The entry of a row in a module: what comes before the grid, the grid, and what follows it.
proof fn lemma_grid_entry(
    pre: Seq<char>,
    rows: Seq<tables::CliffCfg>,
    k: nat,
    tail: Seq<char>,
)
    requires
        k < rows.len(),
        rows[k as int].min_ctas == 0,
        spelling::entry_name(rows[k as int].name@),
        spelling::clear(
            pre + modules::rows_text(rows, k),
            spelling::head(rows[k as int].name@),
        ),
        tail.len() == 0 || spelling::stands(tail, spelling::mark(), 0),
    ensures
        spelling::entry_of(
            pre + modules::rows_text(rows, rows.len()) + tail,
            rows[k as int].name@,
        ) == modules::row_text(rows[k as int]),
{
    let v = rows[k as int];
    let s = frame_row(v);
    let e = modules::row_text(v);
    let after = lemma_rows_after(rows, k, rows.len());
    let m = spelling::mark();
    lemma_f16();
    spelling::lemma_kernel(s, v.name@, "f16"@);
    let front = modules::rows_text(rows, k);
    assert(pre + modules::rows_text(rows, rows.len()) + tail =~= (pre + front) + e + (after + tail));
    if after.len() > 0 {
        assert((after + tail).subrange(0, m.len() as int) =~= after.subrange(0, m.len() as int));
    } else {
        assert(after + tail =~= tail);
    }
    spelling::lemma_entry(pre + front, e, after + tail, v.name@);
}

/// The names of the rows that both grids hold, and of those before them.
proof fn lemma_common_names()
    ensures
        spelling::entry_name("cliff_swz_s2"@),
        spelling::entry_name("cliff_swz_w22"@),
        spelling::entry_name("cliff_pad_w24"@),
        spelling::entry_name("cliff_swz_s3"@),
        spelling::entry_name("deep_swz_128_s2"@),
        spelling::entry_name("deep_swz_128_s3"@),
        spelling::tells("deep_swz_128_s2"@, 4),
        spelling::tells("deep_swz_128_s3"@, 4),
        "cliff_swz_s2"@ != "cliff_swz_s3"@,
        "cliff_swz_w22"@ != "cliff_swz_s3"@,
        "cliff_pad_w24"@ != "cliff_swz_s3"@,
        "deep_swz_128_s2"@ != "deep_swz_128_s3"@,
{
    reveal_strlit("cliff_swz_s2");
    reveal_strlit("cliff_swz_w22");
    reveal_strlit("cliff_pad_w24");
    reveal_strlit("cliff_swz_s3");
    reveal_strlit("deep_swz_128_s2");
    reveal_strlit("deep_swz_128_s3");
    assert("cliff_swz_s2"@[11] != "cliff_swz_s3"@[11]);
    assert("cliff_swz_w22"@.len() != "cliff_swz_s3"@.len());
    assert("cliff_pad_w24"@.len() != "cliff_swz_s3"@.len());
    assert("deep_swz_128_s2"@[14] != "deep_swz_128_s3"@[14]);
}

/// A row of another name is clear of the head of an entry.
proof fn lemma_other_row(v: tables::CliffCfg, name: Seq<char>)
    requires
        v.min_ctas == 0,
        spelling::entry_name(v.name@),
        spelling::entry_name(name),
        v.name@ != name,
    ensures
        spelling::clear(modules::row_text(v), spelling::head(name)),
{
    let s = frame_row(v);
    lemma_f16();
    spelling::lemma_other_kernel(s, v.name@, name, "f16"@);
}

/// A text in which no entry begins is clear of the head of one.
proof fn lemma_quiet_clear(x: Seq<char>, name: Seq<char>)
    requires
        spelling::quiet(x),
    ensures
        spelling::clear(x, spelling::head(name)),
{
    reveal_strlit(".visible .entry ");
    spelling::lemma_clear_quiet(x, spelling::head(name));
}

/// What stands before the deep grid.
pub open spec fn deep_opening() -> Seq<char> {
    modules::HDR_SM80@ + (if modules::any_dynamic(tables::deep_rows()) || modules::any_dynamic(
        tables::wide_rows(),
    ) {
        modules::DSMEM_DECL@
    } else {
        ""@
    })
}

/// The wide grid is empty or begins with an entry.
proof fn lemma_wide_marked()
    ensures
        ({
            let tail = modules::rows_text(tables::wide_rows(), tables::wide_rows().len());
            tail.len() == 0 || spelling::stands(tail, spelling::mark(), 0)
        }),
{
    let wide = tables::wide_rows();
    reveal(modules::rows_text);
    if wide.len() > 0 {
        let after = lemma_rows_after(wide, 0, wide.len());
        let row = modules::row_text(wide[0]);
        let none = modules::rows_text(wide, 0);
        let m = spelling::mark();
        lemma_row_marked(wide[0]);
        assert(none + row + after =~= row + after);
        assert((row + after).subrange(0, m.len() as int) =~= row.subrange(0, m.len() as int));
    }
}

/// The entries of the common rows in their modules.
proof fn lemma_common_entries()
    ensures
        ({
            let (deep, cliff) = (tables::deep_rows(), tables::cliff_rows());
            &&& spelling::entry_of(modules::gemm_cliff_text(), "cliff_swz_s2"@)
                == modules::row_text(cliff[0])
            &&& spelling::entry_of(modules::gemm_cliff_text(), "cliff_swz_s3"@)
                == modules::row_text(cliff[3])
            &&& spelling::entry_of(modules::gemm_deep_text(), "deep_swz_128_s2"@)
                == modules::row_text(deep[0])
            &&& spelling::entry_of(modules::gemm_deep_text(), "deep_swz_128_s3"@)
                == modules::row_text(deep[1])
        }),
{
    broadcast use spelling::lemma_clear_add;

    let (deep, cliff) = (tables::deep_rows(), tables::cliff_rows());
    let hdr = modules::HDR_SM80@;
    let none = Seq::<char>::empty();
    lemma_common_names();
    lemma_header_quiet();
    lemma_wide_marked();
    reveal_with_fuel(modules::rows_text, 4);
    lemma_quiet_clear(hdr, "cliff_swz_s2"@);
    lemma_quiet_clear(hdr, "cliff_swz_s3"@);
    lemma_quiet_clear(none, "cliff_swz_s2"@);
    lemma_quiet_clear(none, "cliff_swz_s3"@);
    lemma_other_row(cliff[0], "cliff_swz_s3"@);
    lemma_other_row(cliff[1], "cliff_swz_s3"@);
    lemma_other_row(cliff[2], "cliff_swz_s3"@);
    assert(modules::gemm_cliff_text() + none =~= modules::gemm_cliff_text());
    lemma_grid_entry(hdr, cliff, 0, none);
    lemma_grid_entry(hdr, cliff, 3, none);
    let pre = deep_opening();
    let wide = modules::rows_text(tables::wide_rows(), tables::wide_rows().len());
    lemma_quiet_clear(hdr, "deep_swz_128_s2"@);
    lemma_quiet_clear(hdr, "deep_swz_128_s3"@);
    lemma_quiet_clear(modules::DSMEM_DECL@, "deep_swz_128_s2"@);
    lemma_quiet_clear(modules::DSMEM_DECL@, "deep_swz_128_s3"@);
    lemma_quiet_clear(""@, "deep_swz_128_s2"@);
    lemma_quiet_clear(""@, "deep_swz_128_s3"@);
    lemma_quiet_clear(none, "deep_swz_128_s2"@);
    lemma_quiet_clear(none, "deep_swz_128_s3"@);
    lemma_other_row(deep[0], "deep_swz_128_s3"@);
    lemma_grid_entry(pre, deep, 0, wide);
    lemma_grid_entry(pre, deep, 1, wide);
}

/// The deep grid begins with the kernels of the one-property grid: in their modules, the entries of
/// two and three stages are the same text but for their names.
pub proof fn law_deep_rows_continue_the_cliff_rows()
    ensures
        spelling::replaced(
            spelling::entry_of(modules::gemm_deep_text(), "deep_swz_128_s2"@),
            "deep_swz_128_s2"@,
            "cliff_swz_s2"@,
        ) == spelling::entry_of(modules::gemm_cliff_text(), "cliff_swz_s2"@),
        spelling::replaced(
            spelling::entry_of(modules::gemm_deep_text(), "deep_swz_128_s3"@),
            "deep_swz_128_s3"@,
            "cliff_swz_s3"@,
        ) == spelling::entry_of(modules::gemm_cliff_text(), "cliff_swz_s3"@),
{
    let (deep, cliff) = (tables::deep_rows(), tables::cliff_rows());
    lemma_common_entries();
    lemma_common_names();
    lemma_f16();
    let a = frame_row(deep[0]);
    let b = frame_row(deep[1]);
    assert(spelling::mark() + scan::put(a, "cliff_swz_s2"@, "f16"@) == modules::row_text(cliff[0]));
    assert(spelling::mark() + scan::put(b, "cliff_swz_s3"@, "f16"@) == modules::row_text(cliff[3]));
    spelling::lemma_renamed(a, "deep_swz_128_s2"@, "cliff_swz_s2"@, "f16"@, 4);
    spelling::lemma_renamed(b, "deep_swz_128_s3"@, "cliff_swz_s3"@, "f16"@, 4);
}

/// A shared-memory kernel is one text for every name and size: pieces that depend on neither, with
/// the name between them, and the size once, behind the first of two such texts.
pub proof fn law_a_shared_memory_kernel_is_one_text(
    ty: Seq<char>,
    bm: nat,
    bn: nat,
    warps_m: nat,
    warps_n: nat,
) -> (s: (Seq<Sym<char>>, Seq<Sym<char>>))
    ensures
        forall|name: Seq<char>, d: Option<(usize, usize, usize)>| #[trigger]
            smem::entry_smem_text(name, ty, bm, bn, warps_m, warps_n, d) == spelling::mark()
                + scan::put(s.0, name, ty) + wmma_frames::size_text(d) + scan::put(s.1, name, ty),
{
    wmma_frames::frame_smem(bm, bn, warps_m, warps_n, ty)
}

/// The general kernel of the two texts.
proof fn lemma_smem_kernel(
    bm: nat,
    bn: nat,
    warps_m: nat,
    warps_n: nat,
    s: (Seq<Sym<char>>, Seq<Sym<char>>),
) -> (q: Seq<Sym<char>>)
    requires
        scan::passes(s.0),
        frames::begins(s.0),
        scan::passes(s.1),
        s.1.len() > 0,
        s.1.last() == Sym::Char('\n'),
        forall|name: Seq<char>, d: Option<(usize, usize, usize)>| #[trigger]
            smem::entry_smem_text(name, "f16"@, bm, bn, warps_m, warps_n, d) == spelling::mark()
                + scan::put(s.0, name, "f16"@) + wmma_frames::size_text(d) + scan::put(
                s.1,
                name,
                "f16"@,
            ),
    ensures
        spelling::kernel(q),
        forall|name: Seq<char>|
            spelling::mark() + #[trigger] scan::put(q, name, "f16"@) == smem::entry_smem_text(
                name,
                "f16"@,
                bm,
                bn,
                warps_m,
                warps_n,
                None,
            ),
{
    broadcast use {scan::lemma_put_plain, scan::lemma_passes_add, frames::lemma_begins_add};

    templates::lemma_parts_load_dims();
    let dims = parts::LOAD_DIMS@;
    let ty = "f16"@;
    let m = spelling::mark();
    let front = s.0 + scan::plain(dims);
    let q = front + s.1;
    assert forall|name: Seq<char>|
        m + #[trigger] scan::put(q, name, ty) == smem::entry_smem_text(
            name,
            ty,
            bm,
            bn,
            warps_m,
            warps_n,
            None,
        ) by {
        scan::lemma_put_add(s.0, scan::plain(dims), name, ty);
        scan::lemma_put_add(front, s.1, name, ty);
        let (a, b) = (scan::put(s.0, name, ty), scan::put(s.1, name, ty));
        frames::lemma_regroup(m, a, dims);
        frames::lemma_regroup(m, a + dims, b);
    }
    q
}

/// The names of the kernels before the shared-memory kernels of the fp16 module, and theirs.
proof fn lemma_smem_names()
    ensures
        spelling::entry_name("wmma_nt_f16"@),
        spelling::entry_name("wmma_nt_f16_mt"@),
        spelling::entry_name("wmma_nt_f16_sm"@),
        spelling::entry_name("wmma_nt_f16_sm128"@),
        spelling::tells("wmma_nt_f16_sm"@, 11),
        spelling::tells("wmma_nt_f16_sm128"@, 11),
        "wmma_nt_f16"@ != "wmma_nt_f16_sm"@,
        "wmma_nt_f16"@ != "wmma_nt_f16_sm128"@,
        "wmma_nt_f16_mt"@ != "wmma_nt_f16_sm"@,
        "wmma_nt_f16_mt"@ != "wmma_nt_f16_sm128"@,
        "wmma_nt_f16_sm"@ != "wmma_nt_f16_sm128"@,
{
    reveal_strlit("wmma_nt_f16");
    reveal_strlit("wmma_nt_f16_mt");
    reveal_strlit("wmma_nt_f16_sm");
    reveal_strlit("wmma_nt_f16_sm128");
    assert("wmma_nt_f16"@.len() == 11 && "wmma_nt_f16_sm"@.len() == 14
        && "wmma_nt_f16_sm128"@.len() == 17 && "wmma_nt_f16_mt"@.len() == 14);
    assert("wmma_nt_f16_mt"@[12] != "wmma_nt_f16_sm"@[12]);
}

/// What follows the shared-memory kernels in the fp16 module.
#[verifier::opaque]
spec fn behind_smem() -> Seq<char> {
    let rows = tables::pipe_rows();
    modules::db_text("wmma_nt_f16_sm_db"@, "f16"@, act::Act::Identity, false, false)
        + smem_db::entry_smem_db_text(
        "wmma_nt_f16_sm128_db"@,
        "f16"@,
        128,
        128,
        2,
        4,
        act::Act::Identity,
        false,
        false,
    ) + modules::pipe_row_text(rows[0]) + modules::pipe_row_text(rows[1]) + modules::pipe_row_text(
        rows[2],
    ) + modules::twins(rows[2], "f16"@) + modules::pipe_bias_family(rows[0])
        + modules::bias_family(rows[2], "f16"@) + modules::gate_family("f16"@)
        + modules::db_family("f16"@) + modules::db_text(
        "wmma_nt_f16_sm_db_residual"@,
        "f16"@,
        act::Act::Identity,
        false,
        true,
    )
}

/// What comes before the shared-memory kernels in the fp16 module.
#[verifier::opaque]
spec fn before_smem() -> Seq<char> {
    modules::HDR_SM80@ + plain::entry_text("wmma_nt_f16"@, "f16"@, 1, 1) + plain::entry_text(
        "wmma_nt_f16_mt"@,
        "f16"@,
        2,
        4,
    )
}

/// A shared-memory kernel of the fp16 module.
#[verifier::opaque]
spec fn smem_of(use_128: bool, name: Seq<char>, d: Option<(usize, usize, usize)>) -> Seq<char> {
    if use_128 {
        smem::entry_smem_text(name, "f16"@, 128, 128, 2, 4, d)
    } else {
        smem::entry_smem_text(name, "f16"@, 64, 64, 2, 2, d)
    }
}

/// The fp16 module around its shared-memory kernels.
proof fn lemma_fp16_module()
    ensures
        modules::wmma_f16_text() == before_smem() + smem_of(false, "wmma_nt_f16_sm"@, None)
            + smem_of(true, "wmma_nt_f16_sm128"@, None) + behind_smem(),
{
    reveal(before_smem);
    reveal(behind_smem);
    reveal(smem_of);
    let rows = tables::pipe_rows();
    let q = before_smem() + smem_of(false, "wmma_nt_f16_sm"@, None) + smem_of(
        true,
        "wmma_nt_f16_sm128"@,
        None,
    );
    let a1 = modules::db_text("wmma_nt_f16_sm_db"@, "f16"@, act::Act::Identity, false, false);
    let a2 = smem_db::entry_smem_db_text(
        "wmma_nt_f16_sm128_db"@,
        "f16"@,
        128,
        128,
        2,
        4,
        act::Act::Identity,
        false,
        false,
    );
    let a3 = modules::pipe_row_text(rows[0]);
    let a4 = modules::pipe_row_text(rows[1]);
    let a5 = modules::pipe_row_text(rows[2]);
    let a6 = modules::twins(rows[2], "f16"@);
    let a7 = modules::pipe_bias_family(rows[0]);
    let a8 = modules::bias_family(rows[2], "f16"@);
    let a9 = modules::gate_family("f16"@);
    let a10 = modules::db_family("f16"@);
    let a11 = modules::db_text(
        "wmma_nt_f16_sm_db_residual"@,
        "f16"@,
        act::Act::Identity,
        false,
        true,
    );
    lemma_regroup(q, a1, a2);
    lemma_regroup(q, a1 + a2, a3);
    lemma_regroup(q, a1 + a2 + a3, a4);
    lemma_regroup(q, a1 + a2 + a3 + a4, a5);
    lemma_regroup(q, a1 + a2 + a3 + a4 + a5, a6);
    lemma_regroup(q, a1 + a2 + a3 + a4 + a5 + a6, a7);
    lemma_regroup(q, a1 + a2 + a3 + a4 + a5 + a6 + a7, a8);
    lemma_regroup(q, a1 + a2 + a3 + a4 + a5 + a6 + a7 + a8, a9);
    lemma_regroup(q, a1 + a2 + a3 + a4 + a5 + a6 + a7 + a8 + a9, a10);
    lemma_regroup(q, a1 + a2 + a3 + a4 + a5 + a6 + a7 + a8 + a9 + a10, a11);
}

/// A double-buffered kernel begins with the mark of an entry.
proof fn lemma_db_marked(
    name: Seq<char>,
    ty: Seq<char>,
    a: act::Act,
    bias: bool,
    residual: bool,
)
    ensures
        spelling::stands(modules::db_text(name, ty, a, bias, residual), spelling::mark(), 0),
{
    broadcast use spelling::lemma_stands_first;

    frames::lemma_open_marked(
        seq![
            name,
            if bias {
                parts::BIAS_PARAM@
            } else {
                ""@
            },
            if residual {
                smem_db::RESID_PARAM@
            } else {
                ""@
            },
        ],
    );
}

/// What follows an entry does not change that a text begins with one.
proof fn lemma_still_marked(a: Seq<char>, b: Seq<char>, c: Seq<char>, d: Seq<char>)
    requires
        spelling::stands(a, spelling::mark(), 0),
    ensures
        spelling::stands(a + b + c + d, spelling::mark(), 0),
{
    spelling::lemma_stands_first(a, b, spelling::mark());
    spelling::lemma_stands_first(a + b, c, spelling::mark());
    spelling::lemma_stands_first(a + b + c, d, spelling::mark());
}

/// What follows the shared-memory kernels begins with an entry.
proof fn lemma_behind_smem()
    ensures
        spelling::stands(behind_smem(), spelling::mark(), 0),
{
    lemma_db_marked("wmma_nt_f16_sm_db"@, "f16"@, act::Act::Identity, false, false);
    reveal(behind_smem);
    let rows = tables::pipe_rows();
    let a1 = modules::db_text("wmma_nt_f16_sm_db"@, "f16"@, act::Act::Identity, false, false);
    let a2 = smem_db::entry_smem_db_text(
        "wmma_nt_f16_sm128_db"@,
        "f16"@,
        128,
        128,
        2,
        4,
        act::Act::Identity,
        false,
        false,
    );
    let a3 = modules::pipe_row_text(rows[0]);
    let a4 = modules::pipe_row_text(rows[1]);
    let a5 = modules::pipe_row_text(rows[2]);
    let a6 = modules::twins(rows[2], "f16"@);
    let a7 = modules::pipe_bias_family(rows[0]);
    let a8 = modules::bias_family(rows[2], "f16"@);
    let a9 = modules::gate_family("f16"@);
    let a10 = modules::db_family("f16"@);
    let a11 = modules::db_text(
        "wmma_nt_f16_sm_db_residual"@,
        "f16"@,
        act::Act::Identity,
        false,
        true,
    );
    lemma_still_marked(a1, a2, a3, a4);
    lemma_still_marked(a1 + a2 + a3 + a4, a5, a6, a7);
    lemma_still_marked(a1 + a2 + a3 + a4 + a5 + a6 + a7, a8, a9, a10);
    let x = a1 + a2 + a3 + a4 + a5 + a6 + a7 + a8 + a9 + a10;
    spelling::lemma_stands_first(x, a11, spelling::mark());
}

/// What comes before the shared-memory kernels is clear of their heads.
proof fn lemma_before_smem(name: Seq<char>)
    requires
        name == "wmma_nt_f16_sm"@ || name == "wmma_nt_f16_sm128"@,
    ensures
        spelling::clear(before_smem(), spelling::head(name)),
{
    broadcast use spelling::lemma_clear_add;

    reveal(before_smem);
    lemma_header_quiet();
    lemma_quiet_clear(modules::HDR_SM80@, name);
    lemma_smem_names();
    lemma_f16();
    let a = wmma_frames::frame_plain(1, 1, "f16"@);
    let b = wmma_frames::frame_plain(2, 4, "f16"@);
    spelling::lemma_other_kernel(a, "wmma_nt_f16"@, name, "f16"@);
    spelling::lemma_other_kernel(b, "wmma_nt_f16_mt"@, name, "f16"@);
    assert(spelling::mark() + scan::put(a, "wmma_nt_f16"@, "f16"@) == plain::entry_text(
        "wmma_nt_f16"@,
        "f16"@,
        1,
        1,
    ));
    assert(spelling::mark() + scan::put(b, "wmma_nt_f16_mt"@, "f16"@) == plain::entry_text(
        "wmma_nt_f16_mt"@,
        "f16"@,
        2,
        4,
    ));
}

/// The name of a shared-memory kernel of the fp16 module.
pub open spec fn smem_name(use_128: bool) -> Seq<char> {
    if use_128 {
        "wmma_nt_f16_sm128"@
    } else {
        "wmma_nt_f16_sm"@
    }
}

/// The name of the same kernel with its size compiled in.
pub open spec fn static_name(use_128: bool) -> Seq<char> {
    if use_128 {
        "wmma_nt_f16_sm128_static"@
    } else {
        "wmma_nt_f16_sm_static"@
    }
}

/// The shared-memory kernels as entries of the fp16 module.
proof fn lemma_smem_entries(use_128: bool, q: Seq<Sym<char>>)
    requires
        spelling::kernel(q),
        spelling::mark() + scan::put(q, smem_name(use_128), "f16"@) == smem_of(
            use_128,
            smem_name(use_128),
            None,
        ),
    ensures
        spelling::entry_of(modules::wmma_f16_text(), smem_name(use_128)) == smem_of(
            use_128,
            smem_name(use_128),
            None,
        ),
{
    let name = smem_name(use_128);
    let before = before_smem();
    let small = smem_of(false, "wmma_nt_f16_sm"@, None);
    let large = smem_of(true, "wmma_nt_f16_sm128"@, None);
    let behind = behind_smem();
    lemma_fp16_module();
    lemma_behind_smem();
    lemma_before_smem(name);
    lemma_smem_names();
    lemma_f16();
    spelling::lemma_kernel(q, name, "f16"@);
    if use_128 {
        lemma_small_clear();
        spelling::lemma_clear_add(before, small, spelling::head(name));
        spelling::lemma_entry(before + small, large, behind, name);
    } else {
        lemma_large_marked();
        lemma_regroup(before + small, large, behind);
        spelling::lemma_stands_first(large, behind, spelling::mark());
        spelling::lemma_entry(before, small, large + behind, name);
    }
}

/// The small shared-memory kernel is clear of the head of the large one.
proof fn lemma_small_clear()
    ensures
        spelling::clear(
            smem_of(false, "wmma_nt_f16_sm"@, None),
            spelling::head("wmma_nt_f16_sm128"@),
        ),
{
    let s = wmma_frames::frame_smem(64, 64, 2, 2, "f16"@);
    let o = lemma_smem_kernel(64, 64, 2, 2, s);
    lemma_smem_names();
    lemma_f16();
    reveal(smem_of);
    spelling::lemma_other_kernel(o, "wmma_nt_f16_sm"@, "wmma_nt_f16_sm128"@, "f16"@);
    assert(spelling::mark() + scan::put(o, "wmma_nt_f16_sm"@, "f16"@) == smem_of(
        false,
        "wmma_nt_f16_sm"@,
        None,
    ));
}

/// The large shared-memory kernel begins with the mark of an entry.
proof fn lemma_large_marked()
    ensures
        spelling::stands(smem_of(true, "wmma_nt_f16_sm128"@, None), spelling::mark(), 0),
{
    let s = wmma_frames::frame_smem(128, 128, 2, 4, "f16"@);
    let o = lemma_smem_kernel(128, 128, 2, 4, s);
    reveal(smem_of);
    let x = scan::put(o, "wmma_nt_f16_sm128"@, "f16"@);
    let m = spelling::mark();
    assert(m + x == smem_of(true, "wmma_nt_f16_sm128"@, None));
    assert((m + x).subrange(0, m.len() as int) =~= m);
}

/// A kernel with its size compiled in is the kernel of the fp16 module but for its name and its
/// size: with the one name in place of the other, there is one text before and one behind the three
/// loads of the size, and with any size compiled in the same two stand around it.
pub proof fn law_a_compiled_in_size_changes_nothing_else(use_128: bool) -> (r: (
    Seq<char>,
    Seq<char>,
))
    ensures
        spelling::replaced(
            spelling::entry_of(modules::wmma_f16_text(), smem_name(use_128)),
            smem_name(use_128),
            static_name(use_128),
        ) == r.0 + parts::LOAD_DIMS@ + r.1,
        forall|m: usize, n: usize, k: usize| #[trigger]
            modules::wmma_f16_sm_static_text(m, n, k, use_128) == modules::HDR_SM80@ + (r.0
                + wmma_frames::size_text(Some((m, n, k))) + r.1),
{
    let (bm, bn, wm, wn) = if use_128 {
        (128nat, 128nat, 2nat, 4nat)
    } else {
        (64nat, 64nat, 2nat, 2nat)
    };
    let s = wmma_frames::frame_smem(bm, bn, wm, wn, "f16"@);
    let q = lemma_smem_kernel(bm, bn, wm, wn, s);
    let (from, to) = (smem_name(use_128), static_name(use_128));
    lemma_smem_names();
    lemma_f16();
    reveal(smem_of);
    assert(spelling::mark() + scan::put(q, from, "f16"@) == smem_of(use_128, from, None));
    assert(spelling::mark() + scan::put(q, to, "f16"@) == smem_of(use_128, to, None));
    lemma_smem_entries(use_128, q);
    spelling::lemma_renamed(q, from, to, "f16"@, 11);
    (spelling::mark() + scan::put(s.0, to, "f16"@), scan::put(s.1, to, "f16"@))
}

} // verus!
