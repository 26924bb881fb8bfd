//! The kernels as texts in which the name and the type are left open: see [`scan`].
use vstd::prelude::*;

use crate::ptx_wmma::act;
use crate::ptx_wmma::mma;
use crate::ptx_wmma::mma_pipe;
use crate::ptx_wmma::parts;
use crate::ptx_wmma::pipeline;
use crate::ptx_wmma::scan;
use crate::ptx_wmma::scan::{Kind, Sym};
use crate::ptx_wmma::smem;
use crate::ptx_wmma::spelling;
use crate::ptx_wmma::templates;
use crate::smem_mode;
use crate::text;

verus! {

/// The registers that are handed to a template are calm.
pub proof fn lemma_registers()
    ensures
        scan::fits(scan::plain("%grpr"@), Kind::Calm),
        scan::fits(scan::plain("%baseRow"@), Kind::Calm),
        scan::fits(scan::plain("%baseCol"@), Kind::Calm),
        scan::fits(scan::plain("%A"@), Kind::Calm),
        scan::fits(scan::plain("%B"@), Kind::Calm),
        scan::fits(scan::plain("%tmp"@), Kind::Calm),
        scan::fits(scan::plain("%aptr"@), Kind::Calm),
        scan::fits(scan::plain("%bptr"@), Kind::Calm),
        scan::fits(scan::plain("%bufcA"@), Kind::Calm),
        scan::fits(scan::plain("%bufcB"@), Kind::Calm),
        scan::fits(scan::plain("%bufwA"@), Kind::Calm),
        scan::fits(scan::plain("%bufwB"@), Kind::Calm),
        scan::fits(scan::plain("%cptr"@), Kind::Calm),
        scan::fits(scan::plain("%cptr2"@), Kind::Calm),
        scan::fits(scan::plain("b"@), Kind::Calm),
{
    reveal_strlit("%grpr");
    reveal_strlit("%baseRow");
    reveal_strlit("%baseCol");
    reveal_strlit("%A");
    reveal_strlit("%B");
    reveal_strlit("%tmp");
    reveal_strlit("%aptr");
    reveal_strlit("%bptr");
    reveal_strlit("%bufcA");
    reveal_strlit("%bufcB");
    reveal_strlit("%bufwA");
    reveal_strlit("%bufwB");
    reveal_strlit("%cptr");
    reveal_strlit("%cptr2");
    reveal_strlit("b");
    scan::lemma_register("%grpr"@);
    scan::lemma_register("%baseRow"@);
    scan::lemma_register("%baseCol"@);
    scan::lemma_register("%A"@);
    scan::lemma_register("%B"@);
    scan::lemma_register("%tmp"@);
    scan::lemma_register("%aptr"@);
    scan::lemma_register("%bptr"@);
    scan::lemma_register("%bufcA"@);
    scan::lemma_register("%bufcB"@);
    scan::lemma_register("%bufwA"@);
    scan::lemma_register("%bufwB"@);
    scan::lemma_register("%cptr"@);
    scan::lemma_register("%cptr2"@);
    scan::lemma_register("b"@);
}

/// A template repeated once for each number is passed if the template is.
pub proof fn lemma_each(t: Seq<char>, n: nat, step: nat, more: Seq<Seq<char>>, kinds: Seq<Kind>)
    requires
        more.len() == kinds.len(),
        forall|j: int| 0 <= j < more.len() ==> scan::fits(scan::plain(#[trigger] more[j]), kinds[j]),
        scan::scan(t, 0, scan::neutral(), seq![Kind::Calm, Kind::Calm] + kinds) == scan::neutral(),
    ensures
        scan::tidy(text::each(t, n, step, more)),
    decreases n,
{
    broadcast use {scan::lemma_number, scan::lemma_tidy_add};

    reveal(text::each);
    if n == 0 {
        scan::lemma_tidy_empty();
    } else {
        let i = (n - 1) as nat;
        lemma_each(t, i, step, more, kinds);
        let args = seq![text::dec(i), text::dec(i * step)] + more;
        scan::lemma_tidy_fill(t, args, seq![Kind::Calm, Kind::Calm] + kinds);
    }
}

/// See [`lemma_each`].
proof fn lemma_each2_row(
    t: Seq<char>,
    i: nat,
    m: nat,
    si: nat,
    sj: nat,
    more: Seq<Seq<char>>,
    kinds: Seq<Kind>,
)
    requires
        more.len() == kinds.len(),
        forall|j: int| 0 <= j < more.len() ==> scan::fits(scan::plain(#[trigger] more[j]), kinds[j]),
        scan::scan(
            t,
            0,
            scan::neutral(),
            seq![Kind::Calm, Kind::Calm, Kind::Calm, Kind::Calm] + kinds,
        ) == scan::neutral(),
    ensures
        scan::tidy(text::each2_row(t, i, m, si, sj, more)),
    decreases m,
{
    broadcast use {scan::lemma_number, scan::lemma_tidy_add};

    reveal(text::each2_row);
    if m == 0 {
        scan::lemma_tidy_empty();
    } else {
        let j = (m - 1) as nat;
        lemma_each2_row(t, i, j, si, sj, more, kinds);
        let args = seq![text::dec(i), text::dec(j), text::dec(i * si), text::dec(j * sj)] + more;
        scan::lemma_tidy_fill(
            t,
            args,
            seq![Kind::Calm, Kind::Calm, Kind::Calm, Kind::Calm] + kinds,
        );
    }
}

/// See [`lemma_each`].
pub proof fn lemma_each2(
    t: Seq<char>,
    n: nat,
    m: nat,
    si: nat,
    sj: nat,
    more: Seq<Seq<char>>,
    kinds: Seq<Kind>,
)
    requires
        more.len() == kinds.len(),
        forall|j: int| 0 <= j < more.len() ==> scan::fits(scan::plain(#[trigger] more[j]), kinds[j]),
        scan::scan(
            t,
            0,
            scan::neutral(),
            seq![Kind::Calm, Kind::Calm, Kind::Calm, Kind::Calm] + kinds,
        ) == scan::neutral(),
    ensures
        scan::tidy(text::each2(t, n, m, si, sj, more)),
    decreases n,
{
    broadcast use scan::lemma_tidy_add;

    reveal(text::each2);
    if n == 0 {
        scan::lemma_tidy_empty();
    } else {
        lemma_each2(t, (n - 1) as nat, m, si, sj, more, kinds);
        lemma_each2_row(t, (n - 1) as nat, m, si, sj, more, kinds);
    }
}

/// [`lemma_each`] with numbers alone.
pub proof fn lemma_each_0(t: Seq<char>, n: nat, step: nat)
    requires
        scan::scan(t, 0, scan::neutral(), seq![Kind::Calm, Kind::Calm]) == scan::neutral(),
    ensures
        scan::tidy(text::each(t, n, step, Seq::empty())),
{
    let none = Seq::<Kind>::empty();
    assert(seq![Kind::Calm, Kind::Calm] + none =~= seq![Kind::Calm, Kind::Calm]);
    lemma_each(t, n, step, Seq::empty(), none);
}

/// [`lemma_each2`] with numbers alone.
pub proof fn lemma_each2_0(t: Seq<char>, n: nat, m: nat, si: nat, sj: nat)
    requires
        scan::scan(
            t,
            0,
            scan::neutral(),
            seq![Kind::Calm, Kind::Calm, Kind::Calm, Kind::Calm],
        ) == scan::neutral(),
    ensures
        scan::tidy(text::each2(t, n, m, si, sj, Seq::empty())),
{
    let four = seq![Kind::Calm, Kind::Calm, Kind::Calm, Kind::Calm];
    let none = Seq::<Kind>::empty();
    assert(four + none =~= four);
    lemma_each2(t, n, m, si, sj, Seq::empty(), none);
}

/// The registers of a declaration.
pub proof fn lemma_declared(list: Seq<char>)
    requires
        scan::tidy(list),
    ensures
        scan::tidy(text::fill(parts::F32_REGS@, seq![text::without_last(list)])),
        scan::tidy(text::fill(parts::B32_REGS@, seq![text::without_last(list)])),
{
    let x = text::without_last(list);
    let end = scan::read(scan::neutral(), scan::plain(x));
    scan::lemma_without_last(list);
    scan::lemma_ends(scan::plain(x));
    templates::lemma_parts_f32_regs(end);
    templates::lemma_parts_b32_regs(end);
    scan::lemma_tidy_fill(parts::F32_REGS@, seq![x], seq![Kind::Ends(end)]);
    scan::lemma_tidy_fill(parts::B32_REGS@, seq![x], seq![Kind::Ends(end)]);
}

/// The registers of a pipelined kernel.
proof fn lemma_mma_pipe_regs(shape: mma::MmaShape, e: mma_pipe::Epilogue)
    ensures
        scan::tidy(mma_pipe::mma_pipe_regs(shape, e)),
{
    broadcast use scan::lemma_tidy_add;

    scan::lemma_tidy_empty();
    templates::lemma_mma_pipe_regs();
    templates::lemma_mma_act_regs();
    templates::lemma_mma_pipe_bias_regs();
    templates::lemma_mma_pipe_resid_regs();
    templates::lemma_mma_swizzle_regs();
    templates::lemma_mma_raster_regs();
    templates::lemma_mma_pipe_pointer_regs();
    templates::lemma_mma_pipe_d_regs();
    templates::lemma_mma_pipe_a_regs();
    templates::lemma_mma_pipe_b_regs();
    lemma_each2_0(mma_pipe::D_REGS@, shape.tm(), shape.tn(), 0, 0);
    lemma_each_0(mma_pipe::A_REGS@, shape.tm(), 0);
    lemma_each_0(mma_pipe::B_REGS@, shape.tn(), 0);
    lemma_declared(text::each2(mma_pipe::D_REGS@, shape.tm(), shape.tn(), 0, 0, Seq::empty()));
    lemma_declared(
        text::each(mma_pipe::A_REGS@, shape.tm(), 0, Seq::empty()) + text::each(
            mma_pipe::B_REGS@,
            shape.tn(),
            0,
            Seq::empty(),
        ),
    );
}

/// The origin of a block's tile.
pub proof fn lemma_origin(bm: nat, bn: nat, raster: nat, band: Seq<char>)
    requires
        scan::fits(scan::plain(band), Kind::Calm),
    ensures
        scan::tidy(parts::origin(bm, bn, raster, band)),
{
    broadcast use scan::lemma_number;

    templates::lemma_parts_tile_origin();
    templates::lemma_parts_raster_origin();
    scan::lemma_tidy_fill(
        parts::TILE_ORIGIN@,
        seq![text::dec(bm), text::dec(bn)],
        seq![Kind::Calm, Kind::Calm],
    );
    scan::lemma_tidy_fill(
        parts::RASTER_ORIGIN@,
        seq![
            text::dec(bm),
            text::dec(bn),
            text::dec(raster),
            text::dec(text::twos(bn)),
            text::dec(text::twos(bm)),
            band,
        ],
        seq![Kind::Calm, Kind::Calm, Kind::Calm, Kind::Calm, Kind::Calm, Kind::Calm],
    );
}

/// The places of the lanes.
proof fn lemma_lanes(shape: mma::MmaShape)
    ensures
        scan::tidy(shape.lanes()),
{
    broadcast use {scan::lemma_number, scan::lemma_tidy_add};

    scan::lemma_tidy_empty();
    templates::lemma_mma_lanes();
    templates::lemma_mma_swizzle_lanes();
    let args = seq![
        text::dec(text::twos(shape.warps_n as nat)),
        text::dec((shape.warps_n - 1) as nat),
        text::dec(shape.bm as nat / shape.warps_m as nat),
        text::dec(shape.bn as nat / shape.warps_n as nat),
        text::dec(shape.ldp()),
    ];
    scan::lemma_number(shape.bm as nat / shape.warps_m as nat);
    scan::lemma_number(shape.bn as nat / shape.warps_n as nat);
    assert forall|j: int| 0 <= j < args.len() implies scan::fits(
        scan::plain(#[trigger] args[j]),
        Kind::Calm,
    ) by {
        assert(j == 0 || j == 1 || j == 2 || j == 3 || j == 4);
    }
    scan::lemma_tidy_fill(
        mma::LANES@,
        args,
        seq![Kind::Calm, Kind::Calm, Kind::Calm, Kind::Calm, Kind::Calm],
    );
    scan::lemma_tidy_fill(
        mma::SWIZZLE_LANES@,
        seq![text::dec(shape.bk as nat * 2), text::dec((shape.bk / 8 - 1) as nat)],
        seq![Kind::Calm, Kind::Calm],
    );
}

/// The setup of a pipelined kernel.
proof fn lemma_mma_pipe_setup(shape: mma::MmaShape, e: mma_pipe::Epilogue)
    ensures
        scan::tidy(mma_pipe::mma_pipe_setup(shape, e)),
{
    broadcast use scan::lemma_tidy_add;

    scan::lemma_tidy_empty();
    lemma_registers();
    templates::lemma_parts_load_dims();
    templates::lemma_parts_load_pointers();
    templates::lemma_mma_pipe_bias_pointer();
    templates::lemma_mma_pipe_resid_pointer();
    templates::lemma_mma_pipe_d_zero();
    lemma_origin(shape.bm as nat, shape.bn as nat, shape.raster as nat, "%grpr"@);
    lemma_lanes(shape);
    lemma_each2_0(mma_pipe::D_ZERO@, shape.tm(), shape.tn(), 0, 0);
}

/// The step of an offset.
proof fn lemma_ring_step(reg: Seq<char>, tile: nat, ring: nat)
    requires
        scan::fits(scan::plain(reg), Kind::Calm),
    ensures
        scan::tidy(pipeline::ring_step(reg, tile, ring)),
{
    broadcast use scan::lemma_number;

    templates::lemma_pipeline_ring_step();
    scan::lemma_tidy_fill(
        pipeline::RING_STEP@,
        seq![reg, text::dec(tile), text::dec(ring)],
        seq![Kind::Calm, Kind::Calm, Kind::Calm],
    );
}

/// The activation of one register.
proof fn lemma_epilogue(a: act::Act, reg: Seq<char>)
    requires
        scan::fits(scan::plain(reg), Kind::Calm),
    ensures
        scan::tidy(a.epilogue_text(reg)),
{
    scan::lemma_tidy_empty();
    templates::lemma_act_relu();
    templates::lemma_act_silu();
    templates::lemma_act_gelu();
    scan::lemma_tidy_fill(act::RELU@, seq![reg], seq![Kind::Calm]);
    scan::lemma_tidy_fill(act::SILU@, seq![reg], seq![Kind::Calm]);
    scan::lemma_tidy_fill(act::GELU@, seq![reg], seq![Kind::Calm]);
}

/// The activation of several registers.
proof fn lemma_epilogues(a: act::Act, prefix: Seq<char>, n: nat)
    requires
        scan::fits(scan::plain(prefix), Kind::Stem),
    ensures
        scan::tidy(a.epilogues_text(prefix, n)),
    decreases n,
{
    broadcast use {scan::lemma_number, scan::lemma_tidy_add};

    reveal(act::Act::epilogues_text);
    if n == 0 {
        scan::lemma_tidy_empty();
    } else {
        let i = (n - 1) as nat;
        lemma_epilogues(a, prefix, i);
        let args = seq![prefix, text::dec(i)];
        let reg = text::fill(act::NUMBERED@, args);
        assert forall|at: int|
            scan::effect(Kind::Calm, at) != scan::lost() implies #[trigger] scan::read(
            at,
            scan::plain(reg),
        ) == scan::effect(Kind::Calm, at) by {
            templates::lemma_act_numbered(at);
            scan::lemma_read_plain_fill(act::NUMBERED@, args, seq![Kind::Stem, Kind::Calm], at);
        }
        lemma_epilogue(a, reg);
    }
}

/// A numbered register of a stem.
proof fn lemma_numbered(d: Seq<char>)
    requires
        scan::fits(scan::plain(d), Kind::Stem),
    ensures
        scan::fits(scan::plain(text::fill(mma_pipe::D0@, seq![d])), Kind::Calm),
        scan::fits(scan::plain(text::fill(mma_pipe::D1@, seq![d])), Kind::Calm),
        scan::fits(scan::plain(text::fill(mma_pipe::D2@, seq![d])), Kind::Calm),
        scan::fits(scan::plain(text::fill(mma_pipe::D3@, seq![d])), Kind::Calm),
{
    assert forall|at: int| scan::effect(Kind::Calm, at) != scan::lost() implies #[trigger] scan::read(
        at,
        scan::plain(text::fill(mma_pipe::D0@, seq![d])),
    ) == scan::neutral() by {
        templates::lemma_mma_pipe_d0(at);
        scan::lemma_read_plain_fill(mma_pipe::D0@, seq![d], seq![Kind::Stem], at);
    }
    assert forall|at: int| scan::effect(Kind::Calm, at) != scan::lost() implies #[trigger] scan::read(
        at,
        scan::plain(text::fill(mma_pipe::D1@, seq![d])),
    ) == scan::neutral() by {
        templates::lemma_mma_pipe_d1(at);
        scan::lemma_read_plain_fill(mma_pipe::D1@, seq![d], seq![Kind::Stem], at);
    }
    assert forall|at: int| scan::effect(Kind::Calm, at) != scan::lost() implies #[trigger] scan::read(
        at,
        scan::plain(text::fill(mma_pipe::D2@, seq![d])),
    ) == scan::neutral() by {
        templates::lemma_mma_pipe_d2(at);
        scan::lemma_read_plain_fill(mma_pipe::D2@, seq![d], seq![Kind::Stem], at);
    }
    assert forall|at: int| scan::effect(Kind::Calm, at) != scan::lost() implies #[trigger] scan::read(
        at,
        scan::plain(text::fill(mma_pipe::D3@, seq![d])),
    ) == scan::neutral() by {
        templates::lemma_mma_pipe_d3(at);
        scan::lemma_read_plain_fill(mma_pipe::D3@, seq![d], seq![Kind::Stem], at);
    }
}

/// The store of a pair.
proof fn lemma_pair(s: act::Store, dst: Seq<char>, lo: Seq<char>, hi: Seq<char>)
    requires
        scan::fits(scan::plain(dst), Kind::Calm),
        scan::fits(scan::plain(lo), Kind::Calm),
        scan::fits(scan::plain(hi), Kind::Calm),
    ensures
        scan::tidy(s.pair_text(dst, lo, hi)),
{
    let args = seq![dst, lo, hi];
    let kinds = seq![Kind::Calm, Kind::Calm, Kind::Calm];
    templates::lemma_act_store_scalar();
    templates::lemma_act_store_v2();
    templates::lemma_act_store_v2cs();
    scan::lemma_tidy_fill(act::STORE_SCALAR@, args, kinds);
    scan::lemma_tidy_fill(act::STORE_V2@, args, kinds);
    scan::lemma_tidy_fill(act::STORE_V2CS@, args, kinds);
}

/// The epilogue of a sub-tile.
proof fn lemma_tile(e: mma_pipe::Epilogue, i: nat, j: nat)
    ensures
        scan::tidy(e.tile(i, j)),
{
    broadcast use {scan::lemma_number, scan::lemma_tidy_add};

    scan::lemma_tidy_empty();
    lemma_registers();
    let at_ij = seq![text::dec(i), text::dec(j)];
    let d = text::fill(mma_pipe::D_NAME@, at_ij);
    assert forall|at: int| scan::effect(Kind::Stem, at) != scan::lost() implies #[trigger] scan::read(
        at,
        scan::plain(d),
    ) == scan::under() by {
        templates::lemma_mma_pipe_d_name(at);
        scan::lemma_read_plain_fill(mma_pipe::D_NAME@, at_ij, seq![Kind::Calm, Kind::Calm], at);
    }
    templates::lemma_mma_pipe_place();
    templates::lemma_mma_pipe_add_bias();
    templates::lemma_mma_pipe_upper();
    templates::lemma_mma_pipe_upper_resid();
    templates::lemma_mma_pipe_lower();
    templates::lemma_mma_pipe_lower_resid();
    scan::lemma_tidy_fill(
        mma_pipe::PLACE@,
        seq![text::dec(i * 16), text::dec(j * 8)],
        seq![Kind::Calm, Kind::Calm],
    );
    scan::lemma_tidy_fill(mma_pipe::ADD_BIAS@, seq![d], seq![Kind::Stem]);
    scan::lemma_tidy_fill(mma_pipe::UPPER_RESID@, seq![d], seq![Kind::Stem]);
    scan::lemma_tidy_fill(mma_pipe::LOWER_RESID@, seq![d], seq![Kind::Stem]);
    lemma_epilogues(e.act, d, 4);
    lemma_numbered(d);
    lemma_pair(
        e.store,
        "%cptr"@,
        text::fill(mma_pipe::D0@, seq![d]),
        text::fill(mma_pipe::D1@, seq![d]),
    );
    lemma_pair(
        e.store,
        "%cptr2"@,
        text::fill(mma_pipe::D2@, seq![d]),
        text::fill(mma_pipe::D3@, seq![d]),
    );
}

/// The epilogues of a row.
proof fn lemma_tile_row(e: mma_pipe::Epilogue, i: nat, n: nat)
    ensures
        scan::tidy(e.row(i, n)),
    decreases n,
{
    broadcast use scan::lemma_tidy_add;

    reveal(mma_pipe::Epilogue::row);
    if n == 0 {
        scan::lemma_tidy_empty();
    } else {
        lemma_tile_row(e, i, (n - 1) as nat);
        lemma_tile(e, i, (n - 1) as nat);
    }
}

/// The epilogues of all sub-tiles.
proof fn lemma_tiles(e: mma_pipe::Epilogue, tm: nat, tn: nat)
    ensures
        scan::tidy(e.tiles(tm, tn)),
    decreases tm,
{
    broadcast use scan::lemma_tidy_add;

    reveal(mma_pipe::Epilogue::tiles);
    if tm == 0 {
        scan::lemma_tidy_empty();
    } else {
        lemma_tiles(e, (tm - 1) as nat, tn);
        lemma_tile_row(e, (tm - 1) as nat, tn);
    }
}

/// The loads of A fragments from padded rows.
proof fn lemma_a_padded(shape: mma::MmaShape, n: nat)
    ensures
        scan::tidy(shape.a_padded(n)),
    decreases n,
{
    broadcast use {scan::lemma_number, scan::lemma_tidy_add};

    reveal(mma::MmaShape::a_padded);
    if n == 0 {
        scan::lemma_tidy_empty();
    } else {
        let i = (n - 1) as nat;
        let at = i * (32 * shape.ldp());
        let below = 16 * shape.ldp();
        lemma_a_padded(shape, i);
        templates::lemma_mma_load_a_padded();
        scan::lemma_tidy_fill(
            mma::LOAD_A_PADDED@,
            seq![
                text::dec(i),
                text::dec(at),
                text::dec(at + 16),
                text::dec(at + below),
                text::dec(at + below + 16),
            ],
            seq![Kind::Calm, Kind::Calm, Kind::Calm, Kind::Calm, Kind::Calm],
        );
    }
}

/// The loads of B fragments from padded rows.
proof fn lemma_b_padded(shape: mma::MmaShape, which: Seq<char>, n: nat)
    requires
        scan::fits(scan::plain(which), Kind::Calm),
    ensures
        scan::tidy(shape.b_padded(which, n)),
    decreases n,
{
    broadcast use {scan::lemma_number, scan::lemma_tidy_add};

    reveal(mma::MmaShape::b_padded);
    if n == 0 {
        scan::lemma_tidy_empty();
    } else {
        let i = (n - 1) as nat;
        let at = i * (16 * shape.ldp());
        lemma_b_padded(shape, which, i);
        templates::lemma_mma_load_b_padded();
        scan::lemma_tidy_fill(
            mma::LOAD_B_PADDED@,
            seq![text::dec(i), text::dec(at), text::dec(at + 16), which],
            seq![Kind::Calm, Kind::Calm, Kind::Calm, Kind::Calm],
        );
    }
}

/// A template with something left open, and the texts that it stands for.
pub proof fn frame_fill(
    t: Seq<char>,
    args: Seq<Seq<Sym<char>>>,
    kinds: Seq<Kind>,
    ty: Seq<char>,
) -> (s: Seq<Sym<char>>)
    requires
        args.len() == kinds.len(),
        forall|j: int| 0 <= j < args.len() ==> scan::fits(#[trigger] args[j], kinds[j]),
        scan::scan(t, 0, scan::neutral(), kinds) == scan::neutral(),
    ensures
        scan::passes(s),
        forall|n: Seq<char>| #[trigger]
            scan::put(s, n, ty) == text::fill(t, scan::puts(args, n, ty)),
{
    let s = scan::open_fill(t, args);
    scan::lemma_read_fill(t, args, kinds, scan::neutral());
    assert forall|n: Seq<char>| #[trigger]
        scan::put(s, n, ty) == text::fill(t, scan::puts(args, n, ty)) by {
        scan::lemma_put_fill(t, args, n, ty);
    }
    s
}

/// The symbol of a buffer, and where it leads a reader.
proof fn frame_symbol(
    own: Seq<char>,
    dynamic: bool,
    ty: Seq<char>,
) -> (s: Seq<Sym<char>>)
    requires
        own == smem::A_BUFFER@ || own == smem::B_BUFFER@,
    ensures
        scan::read(scan::neutral(), s) == scan::neutral() || scan::read(scan::neutral(), s)
            == scan::at_name(),
        forall|n: Seq<char>| #[trigger]
            scan::put(s, n, ty) == (if dynamic {
                smem_mode::DSMEM_SYM@
            } else {
                text::fill(own, seq![n])
            }),
{
    broadcast use {scan::lemma_put_plain, scan::lemma_put_named};

    if dynamic {
        templates::lemma_mode_dsmem_sym();
        scan::plain(smem_mode::DSMEM_SYM@)
    } else {
        templates::lemma_smem_a_buffer();
        templates::lemma_smem_b_buffer();
        scan::lemma_open_kinds();
        let args = seq![scan::named()];
        scan::lemma_read_fill(own, args, seq![Kind::Name], scan::neutral());
        let s = scan::open_fill(own, args);
        assert forall|n: Seq<char>| #[trigger] scan::put(s, n, ty) == text::fill(own, seq![n]) by {
            scan::lemma_put_fill(own, args, n, ty);
            assert(scan::puts(args, n, ty) =~= seq![n]);
        }
        s
    }
}

/// The address of a buffer.
proof fn frame_base(
    reg: Seq<char>,
    sym: Seq<Sym<char>>,
    off: nat,
    ty: Seq<char>,
) -> (s: Seq<Sym<char>>)
    requires
        scan::fits(scan::plain(reg), Kind::Calm),
        scan::read(scan::neutral(), sym) == scan::neutral() || scan::read(scan::neutral(), sym)
            == scan::at_name(),
    ensures
        scan::passes(s),
        forall|n: Seq<char>| #[trigger]
            scan::put(s, n, ty) == mma::base(reg, scan::put(sym, n, ty), off),
{
    broadcast use {scan::lemma_put_plain, scan::lemma_number};

    let end = scan::read(scan::neutral(), sym);
    scan::lemma_ends(sym);
    templates::lemma_mma_base(end);
    templates::lemma_mma_base_behind(end);
    if off == 0 {
        let args = seq![scan::plain(reg), sym];
        let s = frame_fill(mma::BASE@, args, seq![Kind::Calm, Kind::Ends(end)], ty);
        assert forall|n: Seq<char>| #[trigger]
            scan::put(s, n, ty) == mma::base(reg, scan::put(sym, n, ty), off) by {
            assert(scan::puts(args, n, ty) =~= seq![reg, scan::put(sym, n, ty)]);
        }
        s
    } else {
        let args = seq![scan::plain(reg), sym, scan::plain(text::dec(off))];
        let s = frame_fill(
            mma::BASE_BEHIND@,
            args,
            seq![Kind::Calm, Kind::Ends(end), Kind::Calm],
            ty,
        );
        assert forall|n: Seq<char>| #[trigger]
            scan::put(s, n, ty) == mma::base(reg, scan::put(sym, n, ty), off) by {
            assert(scan::puts(args, n, ty) =~= seq![reg, scan::put(sym, n, ty), text::dec(off)]);
        }
        s
    }
}

/// A body repeated with its number before it.
pub proof fn frame_chunks(body: Seq<Sym<char>>, n: nat, threads: nat, ty: Seq<char>) -> (s: Seq<
    Sym<char>,
>)
    requires
        scan::passes(body),
    ensures
        scan::passes(s),
        forall|m: Seq<char>| #[trigger]
            scan::put(s, m, ty) == parts::chunks(scan::put(body, m, ty), n, threads),
    decreases n,
{
    broadcast use {scan::lemma_put_plain, scan::lemma_number, scan::lemma_passes_add};

    reveal(parts::counted);
    if n == 0 {
        scan::lemma_tidy_empty();
        scan::plain(Seq::empty())
    } else {
        let i = (n - 1) as nat;
        let front = frame_chunks(body, i, threads, ty);
        templates::lemma_parts_first_chunk();
        templates::lemma_parts_next_chunk();
        let head = if i == 0 {
            parts::FIRST_CHUNK@
        } else {
            text::fill(parts::NEXT_CHUNK@, seq![text::dec(i * threads)])
        };
        scan::lemma_tidy_fill(
            parts::NEXT_CHUNK@,
            seq![text::dec(i * threads)],
            seq![Kind::Calm],
        );
        let s = front + scan::plain(head) + body;
        assert forall|m: Seq<char>| #[trigger]
            scan::put(s, m, ty) == parts::chunks(scan::put(body, m, ty), n, threads) by {
            scan::lemma_put_add(front, scan::plain(head), m, ty);
            scan::lemma_put_add(front + scan::plain(head), body, m, ty);
            assert(scan::put(front, m, ty) == parts::chunks(scan::put(body, m, ty), i, threads));
        }
        s
    }
}

/// The copy of a tile.
proof fn frame_stage(
    shape: mma::MmaShape,
    rows: nat,
    row: Seq<char>,
    ptr: Seq<char>,
    address: Seq<Sym<char>>,
    at: Seq<char>,
    ty: Seq<char>,
) -> (s: Seq<Sym<char>>)
    requires
        scan::fits(scan::plain(row), Kind::Calm),
        scan::fits(scan::plain(ptr), Kind::Calm),
        scan::fits(scan::plain(at), Kind::Calm),
        scan::passes(address),
    ensures
        scan::passes(s),
        forall|n: Seq<char>| #[trigger]
            scan::put(s, n, ty) == shape.stage(rows, row, ptr, scan::put(address, n, ty), at),
{
    broadcast use {scan::lemma_put_plain, scan::lemma_number};

    scan::lemma_ends(address);
    templates::lemma_mma_stage_swizzled();
    templates::lemma_mma_stage_padded();
    let t = if shape.swz {
        mma::STAGE_SWIZZLED@
    } else {
        mma::STAGE_PADDED@
    };
    let twos = text::dec(text::twos((shape.bk / 8) as nat));
    let mask = text::dec((shape.bk / 8 - 1) as nat);
    let len = text::dec(shape.ldp() * 2);
    let args = seq![
        scan::plain(row),
        scan::plain(ptr),
        address,
        scan::plain(at),
        scan::plain(twos),
        scan::plain(mask),
        scan::plain(len),
    ];
    let kinds = seq![
        Kind::Calm,
        Kind::Calm,
        Kind::Ends(scan::neutral()),
        Kind::Calm,
        Kind::Calm,
        Kind::Calm,
        Kind::Calm,
    ];
    assert forall|j: int| 0 <= j < args.len() implies scan::fits(#[trigger] args[j], kinds[j]) by {
        assert(j == 0 || j == 1 || j == 2 || j == 3 || j == 4 || j == 5 || j == 6);
    }
    let body = frame_fill(t, args, kinds, ty);
    let count = rows * shape.bk as nat / (shape.threads() * 8);
    let s = frame_chunks(body, count, shape.threads(), ty);
    assert forall|n: Seq<char>| #[trigger]
        scan::put(s, n, ty) == shape.stage(rows, row, ptr, scan::put(address, n, ty), at) by {
        assert(scan::puts(args, n, ty) =~= seq![
            row,
            ptr,
            scan::put(address, n, ty),
            at,
            twos,
            mask,
            len,
        ]);
        assert(scan::put(body, n, ty) == text::fill(t, scan::puts(args, n, ty)));
    }
    s
}

/// The copy of one stage.
proof fn frame_copy(shape: mma::MmaShape, dynamic: bool, ty: Seq<char>) -> (s: Seq<Sym<char>>)
    ensures
        scan::passes(s),
        forall|n: Seq<char>| #[trigger]
            scan::put(s, n, ty) == mma_pipe::mma_pipe_copy(n, shape, dynamic),
{
    broadcast use scan::lemma_passes_add;

    lemma_registers();
    let a_sym = frame_symbol(smem::A_BUFFER@, dynamic, ty);
    let b_sym = frame_symbol(smem::B_BUFFER@, dynamic, ty);
    let a_base = frame_base("%tmp"@, a_sym, 0, ty);
    let b_base = frame_base("%tmp"@, b_sym, mma_pipe::b_offset(shape, dynamic), ty);
    let a = frame_stage(shape, shape.bm as nat, "%baseRow"@, "%A"@, a_base, "%bufwA"@, ty);
    let b = frame_stage(shape, shape.bn as nat, "%baseCol"@, "%B"@, b_base, "%bufwB"@, ty);
    assert forall|n: Seq<char>| #[trigger]
        scan::put(a + b, n, ty) == mma_pipe::mma_pipe_copy(n, shape, dynamic) by {
        scan::lemma_put_add(a, b, n, ty);
        assert(scan::put(a_sym, n, ty) == mma_pipe::a_symbol(n, dynamic));
        assert(scan::put(b_sym, n, ty) == mma_pipe::b_symbol(n, dynamic));
        assert(scan::put(a_base, n, ty) == mma::base("%tmp"@, scan::put(a_sym, n, ty), 0));
        assert(scan::put(b_base, n, ty) == mma::base(
            "%tmp"@,
            scan::put(b_sym, n, ty),
            mma_pipe::b_offset(shape, dynamic),
        ));
    }
    a + b
}

/// The stages copied ahead of the loop.
proof fn frame_prologue(
    k: nat,
    bk: nat,
    tile_a: nat,
    tile_b: nat,
    copy: Seq<Sym<char>>,
    ty: Seq<char>,
) -> (s: Seq<Sym<char>>)
    requires
        scan::passes(copy),
    ensures
        scan::passes(s),
        forall|n: Seq<char>| #[trigger]
            scan::put(s, n, ty) == pipeline::prologue(
                n,
                k,
                bk,
                tile_a,
                tile_b,
                scan::put(copy, n, ty),
            ),
    decreases k,
{
    broadcast use {
        scan::lemma_put_plain,
        scan::lemma_put_named,
        scan::lemma_number,
        scan::lemma_passes_add,
    };

    reveal(pipeline::prologue);
    if k == 0 {
        scan::lemma_tidy_empty();
        scan::plain(Seq::empty())
    } else {
        let st = (k - 1) as nat;
        let front = frame_prologue(st, bk, tile_a, tile_b, copy, ty);
        scan::lemma_open_kinds();
        scan::lemma_ends(copy);
        templates::lemma_pipeline_prologue();
        let args = seq![
            scan::named(),
            scan::plain(text::dec(st)),
            scan::plain(text::dec(st * bk)),
            scan::plain(text::dec(st * tile_a)),
            scan::plain(text::dec(st * tile_b)),
            copy,
        ];
        let kinds = seq![
            Kind::Name,
            Kind::Calm,
            Kind::Calm,
            Kind::Calm,
            Kind::Calm,
            Kind::Ends(scan::neutral()),
        ];
        assert forall|j: int| 0 <= j < args.len() implies scan::fits(#[trigger] args[j], kinds[j]) by {
            assert(j == 0 || j == 1 || j == 2 || j == 3 || j == 4 || j == 5);
        }
        let last = frame_fill(pipeline::PROLOGUE@, args, kinds, ty);
        assert forall|n: Seq<char>| #[trigger]
            scan::put(front + last, n, ty) == pipeline::prologue(
                n,
                k,
                bk,
                tile_a,
                tile_b,
                scan::put(copy, n, ty),
            ) by {
            scan::lemma_put_add(front, last, n, ty);
            assert(scan::puts(args, n, ty) =~= seq![
                n,
                text::dec(st),
                text::dec(st * bk),
                text::dec(st * tile_a),
                text::dec(st * tile_b),
                scan::put(copy, n, ty),
            ]);
            assert(scan::put(last, n, ty) == text::fill(
                pipeline::PROLOGUE@,
                scan::puts(args, n, ty),
            ));
            assert(scan::put(front, n, ty) == pipeline::prologue(
                n,
                st,
                bk,
                tile_a,
                tile_b,
                scan::put(copy, n, ty),
            ));
        }
        front + last
    }
}

/// The head of the loop.
pub proof fn frame_loop_head(ty: Seq<char>) -> (s: Seq<Sym<char>>)
    ensures
        scan::passes(s),
        forall|n: Seq<char>| #[trigger]
            scan::put(s, n, ty) == text::fill(parts::LOOP_HEAD@, seq![n]),
{
    broadcast use scan::lemma_put_named;

    scan::lemma_open_kinds();
    templates::lemma_parts_loop_head();
    let args = seq![scan::named()];
    let s = frame_fill(parts::LOOP_HEAD@, args, seq![Kind::Name], ty);
    assert forall|n: Seq<char>| #[trigger]
        scan::put(s, n, ty) == text::fill(parts::LOOP_HEAD@, seq![n]) by {
        assert(scan::puts(args, n, ty) =~= seq![n]);
    }
    s
}

/// The end of the loop.
pub proof fn frame_loop_tail(bk: nat, ty: Seq<char>) -> (s: Seq<Sym<char>>)
    ensures
        scan::passes(s),
        forall|n: Seq<char>| #[trigger]
            scan::put(s, n, ty) == text::fill(parts::LOOP_TAIL@, seq![n, text::dec(bk)]),
{
    broadcast use {scan::lemma_put_named, scan::lemma_put_plain, scan::lemma_number};

    scan::lemma_open_kinds();
    templates::lemma_parts_loop_tail();
    let args = seq![scan::named(), scan::plain(text::dec(bk))];
    let s = frame_fill(parts::LOOP_TAIL@, args, seq![Kind::Name, Kind::Calm], ty);
    assert forall|n: Seq<char>| #[trigger]
        scan::put(s, n, ty) == text::fill(parts::LOOP_TAIL@, seq![n, text::dec(bk)]) by {
        assert(scan::puts(args, n, ty) =~= seq![n, text::dec(bk)]);
    }
    s
}

/// From the first copy to the multiplications.
proof fn frame_pipe_start(
    stages: nat,
    bk: nat,
    tile_a: nat,
    tile_b: nat,
    copy: Seq<Sym<char>>,
    ty: Seq<char>,
) -> (s: Seq<Sym<char>>)
    requires
        scan::passes(copy),
    ensures
        scan::passes(s),
        forall|n: Seq<char>| #[trigger]
            scan::put(s, n, ty) == pipeline::pipe_start(
                n,
                stages,
                bk,
                tile_a,
                tile_b,
                scan::put(copy, n, ty),
            ),
{
    broadcast use {
        scan::lemma_put_plain,
        scan::lemma_put_named,
        scan::lemma_number,
        scan::lemma_passes_add,
    };

    let ahead = (stages - 1) as nat;
    let a = frame_prologue(ahead, bk, tile_a, tile_b, copy, ty);
    templates::lemma_pipeline_ring_start();
    templates::lemma_pipeline_prefetch();
    scan::lemma_open_kinds();
    scan::lemma_ends(copy);
    let ring = text::fill(
        pipeline::RING_START@,
        seq![text::dec(ahead * tile_a), text::dec(ahead * tile_b)],
    );
    scan::lemma_tidy_fill(
        pipeline::RING_START@,
        seq![text::dec(ahead * tile_a), text::dec(ahead * tile_b)],
        seq![Kind::Calm, Kind::Calm],
    );
    let b = scan::plain(ring);
    let c = frame_loop_head(ty);
    let args = seq![
        scan::named(),
        scan::plain(text::dec((stages - 2) as nat)),
        scan::plain(text::dec(ahead * bk)),
        copy,
    ];
    let kinds = seq![Kind::Name, Kind::Calm, Kind::Calm, Kind::Ends(scan::neutral())];
    assert forall|j: int| 0 <= j < args.len() implies scan::fits(#[trigger] args[j], kinds[j]) by {
        assert(j == 0 || j == 1 || j == 2 || j == 3);
    }
    let d = frame_fill(pipeline::PREFETCH@, args, kinds, ty);
    let s = a + b + c + d;
    assert forall|n: Seq<char>| #[trigger]
        scan::put(s, n, ty) == pipeline::pipe_start(
            n,
            stages,
            bk,
            tile_a,
            tile_b,
            scan::put(copy, n, ty),
        ) by {
        scan::lemma_put_add(a, b, n, ty);
        scan::lemma_put_add(a + b, c, n, ty);
        scan::lemma_put_add(a + b + c, d, n, ty);
        assert(scan::puts(args, n, ty) =~= seq![
            n,
            text::dec((stages - 2) as nat),
            text::dec(ahead * bk),
            scan::put(copy, n, ty),
        ]);
        assert(scan::put(c, n, ty) == text::fill(parts::LOOP_HEAD@, seq![n]));
        assert(scan::put(d, n, ty) == text::fill(pipeline::PREFETCH@, scan::puts(args, n, ty)));
    }
    s
}

/// The end of a loop step.
proof fn frame_pipe_step(
    stages: nat,
    bk: nat,
    tile_a: nat,
    tile_b: nat,
    ty: Seq<char>,
) -> (s: Seq<Sym<char>>)
    ensures
        scan::passes(s),
        forall|n: Seq<char>| #[trigger]
            scan::put(s, n, ty) == pipeline::pipe_step(n, stages, bk, tile_a, tile_b),
{
    broadcast use {scan::lemma_put_plain, scan::lemma_tidy_add, scan::lemma_passes_add};

    lemma_registers();
    lemma_ring_step("%bufcA"@, tile_a, stages * tile_a);
    lemma_ring_step("%bufcB"@, tile_b, stages * tile_b);
    lemma_ring_step("%bufwA"@, tile_a, stages * tile_a);
    lemma_ring_step("%bufwB"@, tile_b, stages * tile_b);
    let x = pipeline::ring_step("%bufcA"@, tile_a, stages * tile_a) + pipeline::ring_step(
        "%bufcB"@,
        tile_b,
        stages * tile_b,
    ) + pipeline::ring_step("%bufwA"@, tile_a, stages * tile_a) + pipeline::ring_step(
        "%bufwB"@,
        tile_b,
        stages * tile_b,
    );
    let tail = frame_loop_tail(bk, ty);
    let s = scan::plain(x) + tail;
    assert(scan::tidy(x));
    assert forall|n: Seq<char>| #[trigger]
        scan::put(s, n, ty) == pipeline::pipe_step(n, stages, bk, tile_a, tile_b) by {
        scan::lemma_put_add(scan::plain(x), tail, n, ty);
        assert(scan::put(tail, n, ty) == text::fill(parts::LOOP_TAIL@, seq![n, text::dec(bk)]));
    }
    s
}

/// The loads of the A fragments.
proof fn frame_load_a(
    shape: mma::MmaShape,
    sym: Seq<Sym<char>>,
    ks: nat,
    ty: Seq<char>,
) -> (s: Seq<Sym<char>>)
    requires
        scan::read(scan::neutral(), sym) == scan::neutral() || scan::read(scan::neutral(), sym)
            == scan::at_name(),
    ensures
        scan::passes(s),
        forall|n: Seq<char>| #[trigger]
            scan::put(s, n, ty) == shape.load_a(scan::put(sym, n, ty), ks),
{
    broadcast use {scan::lemma_put_plain, scan::lemma_number, scan::lemma_passes_add};

    lemma_registers();
    let base = frame_base("%aptr"@, sym, 0, ty);
    scan::lemma_ends(base);
    if shape.swz {
        templates::lemma_mma_a_swizzled();
        templates::lemma_mma_load_a_swizzled();
        let args = seq![base, scan::plain(text::dec(ks * 2))];
        let a = frame_fill(
            mma::A_SWIZZLED@,
            args,
            seq![Kind::Ends(scan::neutral()), Kind::Calm],
            ty,
        );
        lemma_each_0(mma::LOAD_A_SWIZZLED@, shape.tm(), 32 * shape.ldp());
        let b = scan::plain(
            text::each(mma::LOAD_A_SWIZZLED@, shape.tm(), 32 * shape.ldp(), Seq::empty()),
        );
        assert forall|n: Seq<char>| #[trigger]
            scan::put(a + b, n, ty) == shape.load_a(scan::put(sym, n, ty), ks) by {
            scan::lemma_put_add(a, b, n, ty);
            assert(scan::puts(args, n, ty) =~= seq![scan::put(base, n, ty), text::dec(ks * 2)]);
            assert(scan::put(a, n, ty) == text::fill(mma::A_SWIZZLED@, scan::puts(args, n, ty)));
        }
        a + b
    } else {
        templates::lemma_mma_a_padded();
        let args = seq![base, scan::plain(text::dec(ks * 32)), scan::plain(text::dec(shape.ldp()))];
        let a = frame_fill(
            mma::A_PADDED@,
            args,
            seq![Kind::Ends(scan::neutral()), Kind::Calm, Kind::Calm],
            ty,
        );
        lemma_a_padded(shape, shape.tm());
        let b = scan::plain(shape.a_padded(shape.tm()));
        assert forall|n: Seq<char>| #[trigger]
            scan::put(a + b, n, ty) == shape.load_a(scan::put(sym, n, ty), ks) by {
            scan::lemma_put_add(a, b, n, ty);
            assert(scan::puts(args, n, ty) =~= seq![
                scan::put(base, n, ty),
                text::dec(ks * 32),
                text::dec(shape.ldp()),
            ]);
            assert(scan::put(a, n, ty) == text::fill(mma::A_PADDED@, scan::puts(args, n, ty)));
        }
        a + b
    }
}

/// The loads of the B fragments.
proof fn frame_load_b(
    shape: mma::MmaShape,
    sym: Seq<Sym<char>>,
    off: nat,
    ks: nat,
    ty: Seq<char>,
) -> (s: Seq<Sym<char>>)
    requires
        scan::read(scan::neutral(), sym) == scan::neutral() || scan::read(scan::neutral(), sym)
            == scan::at_name(),
    ensures
        scan::passes(s),
        forall|n: Seq<char>| #[trigger]
            scan::put(s, n, ty) == shape.load_b(
                "b"@,
                scan::put(sym, n, ty),
                off,
                "%bufcB"@,
                ks,
            ),
{
    broadcast use {scan::lemma_put_plain, scan::lemma_number, scan::lemma_passes_add};

    lemma_registers();
    let base = frame_base("%bptr"@, sym, off, ty);
    let at = "%bufcB"@;
    scan::lemma_ends(base);
    if shape.swz {
        templates::lemma_mma_b_swizzled();
        templates::lemma_mma_load_b_swizzled();
        let args = seq![base, scan::plain(text::dec(ks * 2)), scan::plain(at)];
        let a = frame_fill(
            mma::B_SWIZZLED@,
            args,
            seq![Kind::Ends(scan::neutral()), Kind::Calm, Kind::Calm],
            ty,
        );
        assert(seq![Kind::Calm, Kind::Calm] + seq![Kind::Calm] =~= seq![
            Kind::Calm,
            Kind::Calm,
            Kind::Calm,
        ]);
        lemma_each(
            mma::LOAD_B_SWIZZLED@,
            shape.tn(),
            16 * shape.ldp(),
            seq!["b"@],
            seq![Kind::Calm],
        );
        let b = scan::plain(
            text::each(mma::LOAD_B_SWIZZLED@, shape.tn(), 16 * shape.ldp(), seq!["b"@]),
        );
        assert forall|n: Seq<char>| #[trigger]
            scan::put(a + b, n, ty) == shape.load_b("b"@, scan::put(sym, n, ty), off, at, ks) by {
            scan::lemma_put_add(a, b, n, ty);
            assert(scan::puts(args, n, ty) =~= seq![scan::put(base, n, ty), text::dec(ks * 2), at]);
            assert(scan::put(a, n, ty) == text::fill(mma::B_SWIZZLED@, scan::puts(args, n, ty)));
        }
        a + b
    } else {
        templates::lemma_mma_b_padded();
        let args = seq![
            base,
            scan::plain(text::dec(ks * 32)),
            scan::plain(text::dec(shape.ldp())),
            scan::plain(at),
        ];
        let kinds = seq![Kind::Ends(scan::neutral()), Kind::Calm, Kind::Calm, Kind::Calm];
        assert forall|j: int| 0 <= j < args.len() implies scan::fits(#[trigger] args[j], kinds[j]) by {
            assert(j == 0 || j == 1 || j == 2 || j == 3);
        }
        let a = frame_fill(mma::B_PADDED@, args, kinds, ty);
        lemma_b_padded(shape, "b"@, shape.tn());
        let b = scan::plain(shape.b_padded("b"@, shape.tn()));
        assert forall|n: Seq<char>| #[trigger]
            scan::put(a + b, n, ty) == shape.load_b("b"@, scan::put(sym, n, ty), off, at, ks) by {
            scan::lemma_put_add(a, b, n, ty);
            assert(scan::puts(args, n, ty) =~= seq![
                scan::put(base, n, ty),
                text::dec(ks * 32),
                text::dec(shape.ldp()),
                at,
            ]);
            assert(scan::put(a, n, ty) == text::fill(mma::B_PADDED@, scan::puts(args, n, ty)));
        }
        a + b
    }
}

/// [`lemma_each2_row`] with something left open.
proof fn frame_each2_row(
    t: Seq<char>,
    i: nat,
    m: nat,
    si: nat,
    sj: nat,
    more: Seq<Seq<Sym<char>>>,
    kinds: Seq<Kind>,
    ty: Seq<char>,
) -> (s: Seq<Sym<char>>)
    requires
        more.len() == kinds.len(),
        forall|j: int| 0 <= j < more.len() ==> scan::fits(#[trigger] more[j], kinds[j]),
        scan::scan(
            t,
            0,
            scan::neutral(),
            seq![Kind::Calm, Kind::Calm, Kind::Calm, Kind::Calm] + kinds,
        ) == scan::neutral(),
    ensures
        scan::passes(s),
        forall|n: Seq<char>| #[trigger]
            scan::put(s, n, ty) == text::each2_row(t, i, m, si, sj, scan::puts(more, n, ty)),
    decreases m,
{
    broadcast use {scan::lemma_put_plain, scan::lemma_number, scan::lemma_passes_add};

    reveal(text::each2_row);
    if m == 0 {
        scan::lemma_tidy_empty();
        scan::plain(Seq::empty())
    } else {
        let j = (m - 1) as nat;
        let front = frame_each2_row(t, i, j, si, sj, more, kinds, ty);
        let numbers = seq![text::dec(i), text::dec(j), text::dec(i * si), text::dec(j * sj)];
        let args = scan::plains(numbers) + more;
        let last = frame_fill(
            t,
            args,
            seq![Kind::Calm, Kind::Calm, Kind::Calm, Kind::Calm] + kinds,
            ty,
        );
        assert forall|n: Seq<char>| #[trigger]
            scan::put(front + last, n, ty) == text::each2_row(
                t,
                i,
                m,
                si,
                sj,
                scan::puts(more, n, ty),
            ) by {
            scan::lemma_put_add(front, last, n, ty);
            assert(scan::puts(args, n, ty) =~= numbers + scan::puts(more, n, ty));
            assert(scan::put(last, n, ty) == text::fill(t, scan::puts(args, n, ty)));
            assert(scan::put(front, n, ty) == text::each2_row(
                t,
                i,
                j,
                si,
                sj,
                scan::puts(more, n, ty),
            ));
        }
        front + last
    }
}

/// [`lemma_each2`] with something left open.
proof fn frame_each2(
    t: Seq<char>,
    k: nat,
    m: nat,
    si: nat,
    sj: nat,
    more: Seq<Seq<Sym<char>>>,
    kinds: Seq<Kind>,
    ty: Seq<char>,
) -> (s: Seq<Sym<char>>)
    requires
        more.len() == kinds.len(),
        forall|j: int| 0 <= j < more.len() ==> scan::fits(#[trigger] more[j], kinds[j]),
        scan::scan(
            t,
            0,
            scan::neutral(),
            seq![Kind::Calm, Kind::Calm, Kind::Calm, Kind::Calm] + kinds,
        ) == scan::neutral(),
    ensures
        scan::passes(s),
        forall|n: Seq<char>| #[trigger]
            scan::put(s, n, ty) == text::each2(t, k, m, si, sj, scan::puts(more, n, ty)),
    decreases k,
{
    broadcast use {scan::lemma_put_plain, scan::lemma_passes_add};

    reveal(text::each2);
    if k == 0 {
        scan::lemma_tidy_empty();
        scan::plain(Seq::empty())
    } else {
        let i = (k - 1) as nat;
        let front = frame_each2(t, i, m, si, sj, more, kinds, ty);
        let last = frame_each2_row(t, i, m, si, sj, more, kinds, ty);
        assert forall|n: Seq<char>| #[trigger]
            scan::put(front + last, n, ty) == text::each2(
                t,
                k,
                m,
                si,
                sj,
                scan::puts(more, n, ty),
            ) by {
            scan::lemma_put_add(front, last, n, ty);
            assert(scan::put(front, n, ty) == text::each2(
                t,
                i,
                m,
                si,
                sj,
                scan::puts(more, n, ty),
            ));
            assert(scan::put(last, n, ty) == text::each2_row(
                t,
                i,
                m,
                si,
                sj,
                scan::puts(more, n, ty),
            ));
        }
        front + last
    }
}

/// The types of an `mma.sync`.
proof fn frame_mma_types(ty: Seq<char>) -> (s: Seq<Sym<char>>)
    ensures
        scan::fits(s, Kind::Calm),
        forall|n: Seq<char>| #[trigger]
            scan::put(s, n, ty) == text::fill(mma::MMA_TYPES@, seq![ty]),
{
    broadcast use scan::lemma_put_typed;

    scan::lemma_open_kinds();
    let args = seq![scan::typed()];
    let s = scan::open_fill(mma::MMA_TYPES@, args);
    assert forall|at: int| scan::effect(Kind::Calm, at) != scan::lost() implies #[trigger] scan::read(
        at,
        s,
    ) == scan::neutral() by {
        templates::lemma_mma_mma_types(at);
        scan::lemma_read_fill(mma::MMA_TYPES@, args, seq![Kind::Type], at);
    }
    assert forall|n: Seq<char>| #[trigger]
        scan::put(s, n, ty) == text::fill(mma::MMA_TYPES@, seq![ty]) by {
        scan::lemma_put_fill(mma::MMA_TYPES@, args, n, ty);
        assert(scan::puts(args, n, ty) =~= seq![ty]);
    }
    s
}

/// The steps of a staged tile.
proof fn frame_mma_pipe_steps(
    shape: mma::MmaShape,
    dynamic: bool,
    k: nat,
    ty: Seq<char>,
) -> (s: Seq<Sym<char>>)
    ensures
        scan::passes(s),
        forall|n: Seq<char>| #[trigger]
            scan::put(s, n, ty) == mma_pipe::mma_pipe_steps(n, ty, shape, dynamic, k),
    decreases k,
{
    broadcast use {scan::lemma_put_plain, scan::lemma_passes_add};

    reveal(mma_pipe::mma_pipe_steps);
    if k == 0 {
        scan::lemma_tidy_empty();
        scan::plain(Seq::empty())
    } else {
        let ks = (k - 1) as nat;
        let front = frame_mma_pipe_steps(shape, dynamic, ks, ty);
        let a_sym = frame_symbol(smem::A_BUFFER@, dynamic, ty);
        let b_sym = frame_symbol(smem::B_BUFFER@, dynamic, ty);
        let off = mma_pipe::b_offset(shape, dynamic);
        let a = frame_load_a(shape, a_sym, ks, ty);
        let b = frame_load_b(shape, b_sym, off, ks, ty);
        let types = frame_mma_types(ty);
        templates::lemma_mma_pipe_mma();
        let four = seq![Kind::Calm, Kind::Calm, Kind::Calm, Kind::Calm];
        assert(four + seq![Kind::Calm] =~= seq![
            Kind::Calm,
            Kind::Calm,
            Kind::Calm,
            Kind::Calm,
            Kind::Calm,
        ]);
        let more = seq![types];
        let c = frame_each2(
            mma_pipe::MMA@,
            shape.tm(),
            shape.tn(),
            0,
            0,
            more,
            seq![Kind::Calm],
            ty,
        );
        let s = front + a + b + c;
        assert forall|n: Seq<char>| #[trigger]
            scan::put(s, n, ty) == mma_pipe::mma_pipe_steps(n, ty, shape, dynamic, k) by {
            scan::lemma_put_add(front, a, n, ty);
            scan::lemma_put_add(front + a, b, n, ty);
            scan::lemma_put_add(front + a + b, c, n, ty);
            assert(scan::put(a_sym, n, ty) == mma_pipe::a_symbol(n, dynamic));
            assert(scan::put(b_sym, n, ty) == mma_pipe::b_symbol(n, dynamic));
            assert(scan::put(types, n, ty) == text::fill(mma::MMA_TYPES@, seq![ty]));
            assert(scan::puts(more, n, ty) =~= seq![text::fill(mma::MMA_TYPES@, seq![ty])]);
            assert(scan::put(front, n, ty) == mma_pipe::mma_pipe_steps(n, ty, shape, dynamic, ks));
            assert(scan::put(a, n, ty) == shape.load_a(scan::put(a_sym, n, ty), ks));
            assert(scan::put(c, n, ty) == text::each2(
                mma_pipe::MMA@,
                shape.tm(),
                shape.tn(),
                0,
                0,
                scan::puts(more, n, ty),
            ));
        }
        s
    }
}

/// A template is filled part by part.
pub proof fn lemma_fill_add(a: Seq<char>, b: Seq<char>, args: Seq<Seq<char>>)
    requires
        a.len() > 0,
        a.last() != '#',
    ensures
        text::fill(a + b, args) == text::fill(a, args) + text::fill(b, args),
    decreases b.len(),
{
    reveal(text::fill);
    if b.len() == 0 {
        assert(a + b =~= a);
        assert(text::fill(a, args) + text::fill(b, args) =~= text::fill(a, args));
    } else {
        assert((a + b).drop_last() =~= a + b.drop_last());
        lemma_fill_add(a, b.drop_last(), args);
        let f = text::fill(a, args);
        let g = text::fill(b.drop_last(), args);
        assert((f + g).push(b.last()) =~= f + g.push(b.last()));
        assert((f + g) + text::hole(args, b.last()) =~= f + (g + text::hole(args, b.last())));
    }
}

/// A template without a hole is filled by itself.
pub proof fn lemma_fill_plain(t: Seq<char>, args: Seq<Seq<char>>)
    requires
        forall|j: int| 0 <= j < t.len() ==> #[trigger] t[j] != '#',
    ensures
        text::fill(t, args) == t,
    decreases t.len(),
{
    reveal(text::fill);
    if t.len() > 0 {
        lemma_fill_plain(t.drop_last(), args);
        assert(t.drop_last().push(t.last()) =~= t);
    } else {
        assert(t =~= Seq::<char>::empty());
    }
}

/// A template is read on from its middle.
proof fn lemma_scan_skip(t: Seq<char>, j: nat, i: nat, at: int, kinds: Seq<Kind>)
    requires
        0 < j <= t.len(),
        t[j - 1] != '#',
    ensures
        scan::scan(t.skip(j as int), i, at, kinds) == scan::scan(t, i + j, at, kinds),
    decreases t.len() - i - j,
{
    reveal(scan::scan);
    if i + j < t.len() {
        lemma_scan_skip(t, j, i + 1, scan::over(t, i + j, at, kinds), kinds);
    }
}

/// Whether a text begins with the name and a bracket.
pub open spec fn begins(s: Seq<Sym<char>>) -> bool {
    s.len() >= 2 && s[0] is Name && s[1] == Sym::Char('(')
}

/// What follows does not change how a text begins.
pub broadcast proof fn lemma_begins_add(a: Seq<Sym<char>>, b: Seq<Sym<char>>)
    requires
        begins(a),
    ensures
        #[trigger] begins(a + b),
{
}

/// Regrouping.
pub proof fn lemma_regroup(a: Seq<char>, b: Seq<char>, c: Seq<char>)
    ensures
        a + (b + c) == (a + b) + c,
{
    assert(a + (b + c) =~= (a + b) + c);
}

/// The signature: the mark of an entry, and the rest with the name left open.
proof fn frame_signature(e: mma_pipe::Epilogue, ty: Seq<char>) -> (s: Seq<Sym<char>>)
    ensures
        scan::passes(s),
        begins(s),
        forall|n: Seq<char>|
            spelling::mark() + #[trigger] scan::put(s, n, ty) == mma_pipe::signature(n, e),
{
    scan::lemma_tidy_empty();
    templates::lemma_parts_bias_param();
    templates::lemma_mma_pipe_resid_param();
    let bias = if e.bias {
        parts::BIAS_PARAM@
    } else {
        ""@
    };
    let resid = if e.residual {
        mma_pipe::RESID_PARAM@
    } else {
        ""@
    };
    frame_open(bias, resid, ty)
}

/// Every signature begins with the mark of an entry.
pub proof fn lemma_open_marked(args: Seq<Seq<char>>)
    ensures
        spelling::stands(text::fill(parts::OPEN@, args), spelling::mark(), 0),
{
    let t = parts::OPEN@;
    let m = spelling::mark();
    reveal_strlit(
        ".visible .entry #0(
    .param .u32 pM,
    .param .u32 pN,
    .param .u32 pK,
    .param .u64 pA,
    .param .u64 pB,
    .param .u64 pC#1#2
)
",
    );
    reveal_strlit(".visible .entry ");
    assert(m =~= t.take(16));
    assert(t =~= m + t.skip(16));
    lemma_fill_add(m, t.skip(16), args);
    lemma_fill_plain(m, args);
    let x = text::fill(t, args);
    assert(x.subrange(0, 16) =~= m);
}

/// The signature of an entry with further parameters.
pub proof fn frame_open(bias: Seq<char>, resid: Seq<char>, ty: Seq<char>) -> (s: Seq<Sym<char>>)
    requires
        scan::tidy(bias),
        scan::tidy(resid),
    ensures
        scan::passes(s),
        begins(s),
        forall|n: Seq<char>|
            spelling::mark() + #[trigger] scan::put(s, n, ty) == text::fill(
                parts::OPEN@,
                seq![n, bias, resid],
            ),
{
    broadcast use {scan::lemma_put_plain, scan::lemma_put_named};

    let t = parts::OPEN@;
    let rest = t.skip(16);
    reveal_strlit(
        ".visible .entry #0(
    .param .u32 pM,
    .param .u32 pN,
    .param .u32 pK,
    .param .u64 pA,
    .param .u64 pB,
    .param .u64 pC#1#2
)
",
    );
    reveal_strlit(".visible .entry ");
    let m = spelling::mark();
    assert(m =~= t.take(16));
    assert(t =~= m + rest);
    scan::lemma_open_kinds();
    scan::lemma_ends(scan::plain(bias));
    scan::lemma_ends(scan::plain(resid));
    templates::lemma_parts_open();
    let args = seq![scan::named(), scan::plain(bias), scan::plain(resid)];
    let kinds = seq![Kind::Name, Kind::Ends(scan::neutral()), Kind::Ends(scan::neutral())];
    lemma_scan_skip(t, 16, 0, scan::neutral(), kinds);
    scan::lemma_read_fill(rest, args, kinds, scan::neutral());
    let s = scan::open_fill(rest, args);
    assert forall|n: Seq<char>|
            m + #[trigger] scan::put(s, n, ty) == text::fill(
        t,
        seq![n, bias, resid],
    ) by {
        scan::lemma_put_fill(rest, args, n, ty);
        assert(scan::puts(args, n, ty) =~= seq![n, bias, resid]);
        lemma_fill_add(m, rest, seq![n, bias, resid]);
        lemma_fill_plain(m, seq![n, bias, resid]);
    }
    lemma_first_name(rest, args, rest.len());
    assert(rest.take(rest.len() as int) =~= rest);
    s
}

/// A template that begins with the hole of the name and a bracket begins with them.
proof fn lemma_first_name(t: Seq<char>, args: Seq<Seq<Sym<char>>>, i: nat)
    requires
        3 <= i <= t.len(),
        t[0] == '#',
        t[1] == '0',
        t[2] == '(',
        args.len() > 0,
        args[0] == scan::named(),
    ensures
        begins(scan::open_fill(t.take(i as int), args)),
    decreases i,
{
    reveal_with_fuel(scan::open_fill, 4);
    let now = t.take(i as int);
    if i == 3 {
        let two = now.drop_last();
        let one = two.drop_last();
        assert(one.drop_last().len() == 0);
        assert(one.last() == '#' && two.last() == '0' && two[0] == '#');
        assert(scan::open_fill(one, args) =~= Seq::<Sym<char>>::empty());
        assert(scan::open_fill(two, args) =~= scan::named());
    } else {
        lemma_first_name(t, args, (i - 1) as nat);
        assert(now.drop_last() =~= t.take(i - 1));
    }
}

/// The brace and the buffers.
proof fn frame_buffers(shape: mma::MmaShape, dynamic: bool, ty: Seq<char>) -> (s: Seq<Sym<char>>)
    ensures
        scan::passes(s),
        forall|n: Seq<char>| #[trigger]
            scan::put(s, n, ty) == mma_pipe::buffers(n, shape, dynamic),
{
    broadcast use {scan::lemma_put_plain, scan::lemma_put_named, scan::lemma_number};

    if dynamic {
        templates::lemma_mma_pipe_body();
        scan::plain(mma_pipe::BODY@)
    } else {
        scan::lemma_open_kinds();
        templates::lemma_smem_buffers();
        let args = seq![
            scan::named(),
            scan::plain(text::dec(shape.smem_a())),
            scan::plain(text::dec(shape.smem_b())),
        ];
        let s = frame_fill(smem::BUFFERS@, args, seq![Kind::Name, Kind::Calm, Kind::Calm], ty);
        assert forall|n: Seq<char>| #[trigger]
            scan::put(s, n, ty) == mma_pipe::buffers(n, shape, dynamic) by {
            assert(scan::puts(args, n, ty) =~= seq![
                n,
                text::dec(shape.smem_a()),
                text::dec(shape.smem_b()),
            ]);
        }
        s
    }
}

/// A pipelined kernel without launch bounds: the mark of an entry, and one text for every name.
pub proof fn frame_mma_pipe(shape: mma::MmaShape, e: mma_pipe::Epilogue, ty: Seq<char>) -> (s: Seq<
    Sym<char>,
>)
    ensures
        scan::passes(s),
        begins(s),
        s.last() == Sym::Char('\n'),
        forall|n: Seq<char>|
            spelling::mark() + #[trigger] scan::put(s, n, ty) == mma_pipe::mma_pipe_text(n, ty, shape, e, 0),
{
    broadcast use {scan::lemma_put_plain, scan::lemma_passes_add, lemma_begins_add};

    let dynamic = shape.smem_a() + shape.smem_b() > smem_mode::STATIC_SMEM_CAP;
    let (stages, bk) = (shape.stages as nat, shape.bk as nat);
    let copy = frame_copy(shape, dynamic, ty);
    let a = frame_signature(e, ty);
    let b = frame_buffers(shape, dynamic, ty);
    let c = mma_pipe::mma_pipe_regs(shape, e);
    let d = mma_pipe::mma_pipe_setup(shape, e);
    let f = frame_pipe_start(stages, bk, shape.tile_a(), shape.tile_b(), copy, ty);
    let g = frame_mma_pipe_steps(shape, dynamic, bk / 16, ty);
    let h = frame_pipe_step(stages, bk, shape.tile_a(), shape.tile_b(), ty);
    let i = e.tiles(shape.tm(), shape.tn());
    let j = parts::CLOSE@;
    lemma_mma_pipe_regs(shape, e);
    lemma_mma_pipe_setup(shape, e);
    lemma_tiles(e, shape.tm(), shape.tn());
    templates::lemma_parts_close();
    let s2 = a + b;
    let s3 = s2 + scan::plain(c);
    let s4 = s3 + scan::plain(d);
    let s5 = s4 + f;
    let s6 = s5 + g;
    let s7 = s6 + h;
    let s8 = s7 + scan::plain(i);
    let s = s8 + scan::plain(j);
    let m = spelling::mark();
    assert forall|n: Seq<char>|
            m + #[trigger] scan::put(s, n, ty) == mma_pipe::mma_pipe_text(n, ty, shape, e, 0) by {
        scan::lemma_put_add(a, b, n, ty);
        scan::lemma_put_add(s2, scan::plain(c), n, ty);
        scan::lemma_put_add(s3, scan::plain(d), n, ty);
        scan::lemma_put_add(s4, f, n, ty);
        scan::lemma_put_add(s5, g, n, ty);
        scan::lemma_put_add(s6, h, n, ty);
        scan::lemma_put_add(s7, scan::plain(i), n, ty);
        scan::lemma_put_add(s8, scan::plain(j), n, ty);
        let pa = scan::put(a, n, ty);
        let pb = scan::put(b, n, ty);
        let pf = scan::put(f, n, ty);
        let pg = scan::put(g, n, ty);
        let ph = scan::put(h, n, ty);
        assert(m + pa == mma_pipe::signature(n, e));
        assert(pb == mma_pipe::buffers(n, shape, dynamic));
        assert(scan::put(copy, n, ty) == mma_pipe::mma_pipe_copy(n, shape, dynamic));
        assert(pf == pipeline::pipe_start(
            n,
            stages,
            bk,
            shape.tile_a(),
            shape.tile_b(),
            scan::put(copy, n, ty),
        ));
        assert(pg == mma_pipe::mma_pipe_steps(n, ty, shape, dynamic, bk / 16));
        assert(ph == pipeline::pipe_step(n, stages, bk, shape.tile_a(), shape.tile_b()));
        assert(mma_pipe::signature(n, e) + ""@ =~= mma_pipe::signature(n, e)) by {
            reveal_strlit("");
        }
        lemma_regroup(m, pa, pb);
        lemma_regroup(m, pa + pb, c);
        lemma_regroup(m, pa + pb + c, d);
        lemma_regroup(m, pa + pb + c + d, pf);
        lemma_regroup(m, pa + pb + c + d + pf, pg);
        lemma_regroup(m, pa + pb + c + d + pf + pg, ph);
        lemma_regroup(m, pa + pb + c + d + pf + pg + ph, i);
        lemma_regroup(m, pa + pb + c + d + pf + pg + ph + i, j);
    }
    assert(s.last() == Sym::Char('\n')) by {
        reveal_strlit(
            "    ret;
}
",
        );
    }
    s
}

} // verus!
