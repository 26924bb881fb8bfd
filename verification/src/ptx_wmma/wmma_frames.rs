//! The WMMA kernels as texts in which the name and the type are left open: see [`scan`].
use vstd::prelude::*;

use crate::ptx_wmma::frames;
use crate::ptx_wmma::parts;
use crate::ptx_wmma::plain;
use crate::ptx_wmma::scan;
use crate::ptx_wmma::scan::{Kind, Sym};
use crate::ptx_wmma::smem;
use crate::ptx_wmma::spelling;
use crate::ptx_wmma::templates;
use crate::text;

verus! {

/// The registers of a fragment are calm.
proof fn lemma_fragment(which: Seq<char>, i: nat, width: nat)
    requires
        scan::tidy(which),
    ensures
        scan::fits(scan::plain(parts::fragment_text(which, i, width)), Kind::Calm),
{
    broadcast use scan::lemma_number;

    let at_i = seq![which, text::dec(i)];
    let prefix = text::fill(parts::FRAGMENT_NAME@, at_i);
    scan::lemma_ends(scan::plain(which));
    templates::lemma_parts_fragment_name();
    scan::lemma_read_plain_fill(
        parts::FRAGMENT_NAME@,
        at_i,
        seq![Kind::Ends(scan::neutral()), Kind::Calm],
        scan::neutral(),
    );
    scan::lemma_ends(scan::plain(prefix));
    templates::lemma_parts_vector_reg();
    assert(seq![Kind::Calm, Kind::Calm] + seq![Kind::Ends(scan::under())] =~= seq![
        Kind::Calm,
        Kind::Calm,
        Kind::Ends(scan::under()),
    ]);
    frames::lemma_each(
        parts::VECTOR_REG@,
        width,
        0,
        seq![prefix],
        seq![Kind::Ends(scan::under())],
    );
    let list = text::each(parts::VECTOR_REG@, width, 0, seq![prefix]);
    let x = text::without_last(list);
    let end = scan::read(scan::neutral(), scan::plain(x));
    scan::lemma_without_last(list);
    scan::lemma_ends(scan::plain(x));
    let v = parts::veclist_text(prefix, width);
    assert forall|at: int| scan::effect(Kind::Calm, at) != scan::lost() implies #[trigger] scan::read(
        at,
        scan::plain(v),
    ) == scan::neutral() by {
        templates::lemma_parts_vector(at, end);
        scan::lemma_read_plain_fill(parts::VECTOR@, seq![x], seq![Kind::Ends(end)], at);
    }
}

/// The letters of the two fragments.
proof fn lemma_letters()
    ensures
        scan::tidy("a"@),
        scan::tidy("b"@),
{
    reveal_strlit("a");
    reveal_strlit("b");
    scan::lemma_smooth("a"@);
    scan::lemma_smooth("b"@);
}

/// The types of a `wmma.mma`.
proof fn frame_wmma_types(ty: Seq<char>) -> (s: Seq<Sym<char>>)
    ensures
        scan::fits(s, Kind::Calm),
        forall|n: Seq<char>| #[trigger] scan::put(s, n, ty) == parts::wmma_types(ty),
{
    broadcast use {scan::lemma_put_typed, scan::lemma_put_plain};

    if ty == "f16"@ {
        let x = "f32.f32"@;
        reveal_strlit("f32.f32");
        let (a, b) = (x.take(3), x.skip(4));
        scan::lemma_register(a);
        scan::lemma_register(b);
        let c = x.skip(3);
        assert(x =~= a + c);
        assert(c.skip(1) =~= b);
        scan::lemma_plain_add(a, c);
        let s = scan::plain(x);
        assert forall|at: int|
            scan::effect(Kind::Calm, at) != scan::lost() implies #[trigger] scan::read(at, s)
            == scan::neutral() by {
            scan::lemma_read_add(at, scan::plain(a), scan::plain(c));
            assert(scan::read(at, scan::plain(a)) == scan::neutral());
            scan::lemma_read_first(c, scan::neutral());
            assert(scan::read(scan::dot(), scan::plain(b)) == scan::neutral());
        }
        s
    } else {
        scan::lemma_open_kinds();
        let args = seq![scan::typed()];
        let s = scan::open_fill(parts::MMA_TYPE@, args);
        assert forall|at: int|
            scan::effect(Kind::Calm, at) != scan::lost() implies #[trigger] scan::read(at, s)
            == scan::neutral() by {
            templates::lemma_parts_mma_type(at);
            scan::lemma_read_fill(parts::MMA_TYPE@, args, seq![Kind::Type], at);
        }
        assert forall|n: Seq<char>| #[trigger] scan::put(s, n, ty) == parts::wmma_types(ty) by {
            scan::lemma_put_fill(parts::MMA_TYPE@, args, n, ty);
            assert(scan::puts(args, n, ty) =~= seq![ty]);
        }
        s
    }
}

/// The WMMA steps of a row.
proof fn frame_wmma_row(
    types: Seq<Sym<char>>,
    i: nat,
    k: nat,
    width: nat,
    ty: Seq<char>,
) -> (s: Seq<Sym<char>>)
    requires
        scan::fits(types, Kind::Calm),
    ensures
        scan::passes(s),
        forall|n: Seq<char>| #[trigger]
            scan::put(s, n, ty) == parts::wmma_row(scan::put(types, n, ty), i, k, width),
    decreases k,
{
    broadcast use {scan::lemma_put_plain, scan::lemma_number, scan::lemma_passes_add};

    reveal(parts::wmma_row);
    if k == 0 {
        scan::lemma_tidy_empty();
        scan::plain(Seq::empty())
    } else {
        let j = (k - 1) as nat;
        let front = frame_wmma_row(types, i, j, width, ty);
        lemma_letters();
        lemma_fragment("a"@, i, width);
        lemma_fragment("b"@, j, width);
        templates::lemma_parts_wmma();
        let (fa, fb) = (
            parts::fragment_text("a"@, i, width),
            parts::fragment_text("b"@, j, width),
        );
        let args = seq![
            scan::plain(text::dec(i)),
            scan::plain(text::dec(j)),
            types,
            scan::plain(fa),
            scan::plain(fb),
        ];
        let kinds = seq![Kind::Calm, Kind::Calm, Kind::Calm, Kind::Calm, Kind::Calm];
        assert forall|q: int| 0 <= q < args.len() implies scan::fits(#[trigger] args[q], kinds[q]) by {
            assert(q == 0 || q == 1 || q == 2 || q == 3 || q == 4);
        }
        let last = frames::frame_fill(parts::WMMA@, args, kinds, ty);
        assert forall|n: Seq<char>| #[trigger]
            scan::put(front + last, n, ty) == parts::wmma_row(
                scan::put(types, n, ty),
                i,
                k,
                width,
            ) by {
            scan::lemma_put_add(front, last, n, ty);
            assert(scan::puts(args, n, ty) =~= seq![
                text::dec(i),
                text::dec(j),
                scan::put(types, n, ty),
                fa,
                fb,
            ]);
            assert(scan::put(last, n, ty) == text::fill(parts::WMMA@, scan::puts(args, n, ty)));
            assert(scan::put(front, n, ty) == parts::wmma_row(
                scan::put(types, n, ty),
                i,
                j,
                width,
            ));
        }
        front + last
    }
}

/// The WMMA steps of a grid.
proof fn frame_wmma_grid(
    types: Seq<Sym<char>>,
    tm: nat,
    tn: nat,
    width: nat,
    ty: Seq<char>,
) -> (s: Seq<Sym<char>>)
    requires
        scan::fits(types, Kind::Calm),
    ensures
        scan::passes(s),
        forall|n: Seq<char>| #[trigger]
            scan::put(s, n, ty) == parts::wmma_grid(scan::put(types, n, ty), tm, tn, width),
    decreases tm,
{
    broadcast use {scan::lemma_put_plain, scan::lemma_passes_add};

    reveal(parts::wmma_grid);
    if tm == 0 {
        scan::lemma_tidy_empty();
        scan::plain(Seq::empty())
    } else {
        let i = (tm - 1) as nat;
        let front = frame_wmma_grid(types, i, tn, width, ty);
        let last = frame_wmma_row(types, i, tn, width, ty);
        assert forall|n: Seq<char>| #[trigger]
            scan::put(front + last, n, ty) == parts::wmma_grid(
                scan::put(types, n, ty),
                tm,
                tn,
                width,
            ) by {
            scan::lemma_put_add(front, last, n, ty);
            assert(scan::put(front, n, ty) == parts::wmma_grid(
                scan::put(types, n, ty),
                i,
                tn,
                width,
            ));
            assert(scan::put(last, n, ty) == parts::wmma_row(
                scan::put(types, n, ty),
                i,
                tn,
                width,
            ));
        }
        front + last
    }
}

/// A template repeated once for each fragment.
proof fn frame_each_fragment(
    t: Seq<char>,
    which: Seq<char>,
    k: nat,
    width: nat,
    step: nat,
    more: Seq<Seq<Sym<char>>>,
    kinds: Seq<Kind>,
    ty: Seq<char>,
) -> (s: Seq<Sym<char>>)
    requires
        scan::tidy(which),
        more.len() == kinds.len(),
        forall|j: int| 0 <= j < more.len() ==> scan::fits(#[trigger] more[j], kinds[j]),
        scan::scan(t, 0, scan::neutral(), seq![Kind::Calm, Kind::Calm, Kind::Calm] + kinds)
            == scan::neutral(),
    ensures
        scan::passes(s),
        forall|n: Seq<char>| #[trigger]
            scan::put(s, n, ty) == parts::each_fragment(
                t,
                which,
                k,
                width,
                step,
                scan::puts(more, n, ty),
            ),
    decreases k,
{
    broadcast use {scan::lemma_put_plain, scan::lemma_number, scan::lemma_passes_add};

    reveal(parts::each_fragment);
    if k == 0 {
        scan::lemma_tidy_empty();
        scan::plain(Seq::empty())
    } else {
        let i = (k - 1) as nat;
        let front = frame_each_fragment(t, which, i, width, step, more, kinds, ty);
        lemma_fragment(which, i, width);
        let known = seq![
            text::dec(i),
            text::dec(i * step),
            parts::fragment_text(which, i, width),
        ];
        let args = scan::plains(known) + more;
        let all = seq![Kind::Calm, Kind::Calm, Kind::Calm] + kinds;
        let last = frames::frame_fill(t, args, all, ty);
        assert forall|n: Seq<char>| #[trigger]
            scan::put(front + last, n, ty) == parts::each_fragment(
                t,
                which,
                k,
                width,
                step,
                scan::puts(more, n, ty),
            ) by {
            scan::lemma_put_add(front, last, n, ty);
            assert(scan::puts(args, n, ty) =~= known + scan::puts(more, n, ty));
            assert(scan::put(last, n, ty) == text::fill(t, scan::puts(args, n, ty)));
            assert(scan::put(front, n, ty) == parts::each_fragment(
                t,
                which,
                i,
                width,
                step,
                scan::puts(more, n, ty),
            ));
        }
        front + last
    }
}

/// The registers of the accumulators and the fragments.
proof fn lemma_fragment_regs(tm: nat, tn: nat, width: nat)
    ensures
        scan::tidy(text::fill(parts::F32_REGS@, seq![parts::acc_list(tm, tn)])),
        scan::tidy(parts::ab_regs(tm, tn, width)),
{
    broadcast use scan::lemma_tidy_add;

    templates::lemma_parts_acc_regs();
    templates::lemma_parts_a_reg();
    templates::lemma_parts_b_reg();
    frames::lemma_each2_0(parts::ACC_REGS@, tm, tn, 0, 0);
    frames::lemma_each2_0(parts::A_REG@, tm, width, 0, 0);
    frames::lemma_each2_0(parts::B_REG@, tn, width, 0, 0);
    frames::lemma_declared(text::each2(parts::ACC_REGS@, tm, tn, 0, 0, Seq::empty()));
    frames::lemma_declared(
        text::each2(parts::A_REG@, tm, width, 0, 0, Seq::empty()) + text::each2(
            parts::B_REG@,
            tn,
            width,
            0,
            0,
            Seq::empty(),
        ),
    );
}

/// What comes between the problem size and the loop of a shared-memory kernel.
pub open spec fn smem_setup(bm: nat, bn: nat, tm: nat, tn: nat, warps_n: nat) -> Seq<char> {
    parts::LOAD_POINTERS@ + text::fill(
        parts::TILE_ORIGIN@,
        seq![text::dec(bm), text::dec(bn)],
    ) + text::fill(
        smem::WARP@,
        seq![text::dec(text::twos(warps_n)), text::dec((warps_n - 1) as nat), text::dec(16)],
    ) + text::each2(parts::ACC_ZERO@, tm, tn, 0, 0, Seq::empty())
}

/// See [`smem_setup`].
proof fn lemma_smem_setup(bm: nat, bn: nat, tm: nat, tn: nat, warps_n: nat)
    ensures
        scan::tidy(smem_setup(bm, bn, tm, tn, warps_n)),
{
    broadcast use {scan::lemma_number, scan::lemma_tidy_add};

    templates::lemma_parts_load_pointers();
    templates::lemma_parts_tile_origin();
    templates::lemma_smem_warp();
    templates::lemma_parts_acc_zero();
    scan::lemma_tidy_fill(
        parts::TILE_ORIGIN@,
        seq![text::dec(bm), text::dec(bn)],
        seq![Kind::Calm, Kind::Calm],
    );
    scan::lemma_tidy_fill(
        smem::WARP@,
        seq![text::dec(text::twos(warps_n)), text::dec((warps_n - 1) as nat), text::dec(16)],
        seq![Kind::Calm, Kind::Calm, Kind::Calm],
    );
    frames::lemma_each2_0(parts::ACC_ZERO@, tm, tn, 0, 0);
}

/// What comes before the problem size of a shared-memory kernel.
pub open spec fn smem_opening(
    name: Seq<char>,
    bm: nat,
    bn: nat,
    tm: nat,
    tn: nat,
    width: nat,
) -> Seq<char> {
    text::fill(parts::OPEN@, seq![name, ""@, ""@]) + text::fill(
        smem::BUFFERS@,
        seq![name, text::dec(bm * 16 * 2), text::dec(bn * 16 * 2)],
    ) + smem::REGS@ + text::fill(parts::F32_REGS@, seq![parts::acc_list(tm, tn)])
        + parts::ab_regs(tm, tn, width) + smem::POINTER_REGS@
}

/// See [`smem_opening`].
proof fn frame_smem_opening(
    bm: nat,
    bn: nat,
    tm: nat,
    tn: nat,
    width: nat,
    ty: Seq<char>,
) -> (s: Seq<Sym<char>>)
    ensures
        scan::passes(s),
        frames::begins(s),
        forall|n: Seq<char>|
            spelling::mark() + #[trigger] scan::put(s, n, ty) == smem_opening(
                n,
                bm,
                bn,
                tm,
                tn,
                width,
            ),
{
    broadcast use {
        scan::lemma_put_plain,
        scan::lemma_put_named,
        scan::lemma_number,
        scan::lemma_passes_add,
        scan::lemma_tidy_add,
        frames::lemma_begins_add,
    };

    scan::lemma_tidy_empty();
    scan::lemma_open_kinds();
    templates::lemma_smem_buffers();
    templates::lemma_smem_regs();
    templates::lemma_smem_pointer_regs();
    lemma_fragment_regs(tm, tn, width);
    let a = frames::frame_open(""@, ""@, ty);
    let args = seq![
        scan::named(),
        scan::plain(text::dec(bm * 16 * 2)),
        scan::plain(text::dec(bn * 16 * 2)),
    ];
    let b = frames::frame_fill(
        smem::BUFFERS@,
        args,
        seq![Kind::Name, Kind::Calm, Kind::Calm],
        ty,
    );
    let c = smem::REGS@;
    let d = text::fill(parts::F32_REGS@, seq![parts::acc_list(tm, tn)]);
    let e = parts::ab_regs(tm, tn, width);
    let f = smem::POINTER_REGS@;
    let rest = c + d + e + f;
    assert(scan::tidy(rest));
    let s = a + b + scan::plain(rest);
    let m = spelling::mark();
    assert forall|n: Seq<char>|
        m + #[trigger] scan::put(s, n, ty) == smem_opening(n, bm, bn, tm, tn, width) by {
        scan::lemma_put_add(a, b, n, ty);
        scan::lemma_put_add(a + b, scan::plain(rest), n, ty);
        assert(scan::puts(args, n, ty) =~= seq![
            n,
            text::dec(bm * 16 * 2),
            text::dec(bn * 16 * 2),
        ]);
        let pa = scan::put(a, n, ty);
        let pb = scan::put(b, n, ty);
        assert(m + pa == text::fill(parts::OPEN@, seq![n, ""@, ""@]));
        assert(pb == text::fill(smem::BUFFERS@, scan::puts(args, n, ty)));
        frames::lemma_regroup(m, pa, pb);
        frames::lemma_regroup(m, pa + pb, rest);
        let q = m + pa + pb;
        frames::lemma_regroup(q, c, d);
        frames::lemma_regroup(q, c + d, e);
        frames::lemma_regroup(q, c + d + e, f);
    }
    s
}

/// The loop of a shared-memory kernel.
proof fn frame_smem_loop(
    bm: nat,
    bn: nat,
    tm: nat,
    tn: nat,
    threads: nat,
    ty: Seq<char>,
) -> (s: Seq<Sym<char>>)
    ensures
        scan::passes(s),
        forall|n: Seq<char>| #[trigger]
            scan::put(s, n, ty) == smem::smem_loop(n, ty, bm, bn, tm, tn, threads),
{
    broadcast use {
        scan::lemma_put_plain,
        scan::lemma_put_named,
        scan::lemma_put_typed,
        scan::lemma_number,
        scan::lemma_passes_add,
    };

    let width = parts::fragment_width(ty);
    scan::lemma_open_kinds();
    templates::lemma_smem_loop_start();
    templates::lemma_smem_barrier();
    templates::lemma_smem_load_a();
    templates::lemma_smem_load_b();
    lemma_letters();
    let a = scan::plain(smem::LOOP_START@);
    let b = frames::frame_loop_head(ty);
    let c = frame_smem_stage(smem::A_BUFFER@, "%baseRow"@, "%A"@, bm, threads, ty);
    let d = frame_smem_stage(smem::B_BUFFER@, "%baseCol"@, "%B"@, bn, threads, ty);
    let e = scan::plain(smem::BARRIER@);
    let three = seq![Kind::Calm, Kind::Calm, Kind::Calm];
    let kinds = seq![Kind::Name, Kind::Calm, Kind::Type];
    assert(three + kinds =~= seq![
        Kind::Calm,
        Kind::Calm,
        Kind::Calm,
        Kind::Name,
        Kind::Calm,
        Kind::Type,
    ]);
    let more_a = seq![scan::named(), scan::plain(text::dec(16 * tm)), scan::typed()];
    let more_b = seq![scan::named(), scan::plain(text::dec(16 * tn)), scan::typed()];
    let f = frame_each_fragment(smem::LOAD_A@, "a"@, tm, width, 16, more_a, kinds, ty);
    let g = frame_each_fragment(smem::LOAD_B@, "b"@, tn, width, 16, more_b, kinds, ty);
    let types = frame_wmma_types(ty);
    let h = frame_wmma_grid(types, tm, tn, width, ty);
    let i = frames::frame_loop_tail(16, ty);
    let s = a + b + c + d + e + f + g + h + e + i;
    assert forall|n: Seq<char>| #[trigger]
        scan::put(s, n, ty) == smem::smem_loop(n, ty, bm, bn, tm, tn, threads) by {
        scan::lemma_put_add(a, b, n, ty);
        scan::lemma_put_add(a + b, c, n, ty);
        scan::lemma_put_add(a + b + c, d, n, ty);
        scan::lemma_put_add(a + b + c + d, e, n, ty);
        scan::lemma_put_add(a + b + c + d + e, f, n, ty);
        scan::lemma_put_add(a + b + c + d + e + f, g, n, ty);
        scan::lemma_put_add(a + b + c + d + e + f + g, h, n, ty);
        scan::lemma_put_add(a + b + c + d + e + f + g + h, e, n, ty);
        scan::lemma_put_add(a + b + c + d + e + f + g + h + e, i, n, ty);
        assert(scan::puts(more_a, n, ty) =~= seq![n, text::dec(16 * tm), ty]);
        assert(scan::puts(more_b, n, ty) =~= seq![n, text::dec(16 * tn), ty]);
        assert(scan::put(b, n, ty) == text::fill(parts::LOOP_HEAD@, seq![n]));
        assert(scan::put(f, n, ty) == parts::each_fragment(
            smem::LOAD_A@,
            "a"@,
            tm,
            width,
            16,
            scan::puts(more_a, n, ty),
        ));
        assert(scan::put(g, n, ty) == parts::each_fragment(
            smem::LOAD_B@,
            "b"@,
            tn,
            width,
            16,
            scan::puts(more_b, n, ty),
        ));
        assert(scan::put(types, n, ty) == parts::wmma_types(ty));
        assert(scan::put(h, n, ty) == parts::wmma_grid(scan::put(types, n, ty), tm, tn, width));
        assert(scan::put(i, n, ty) == text::fill(parts::LOOP_TAIL@, seq![n, text::dec(16)]));
    }
    s
}

/// The staging of a tile in a shared-memory kernel.
proof fn frame_smem_stage(
    own: Seq<char>,
    row: Seq<char>,
    ptr: Seq<char>,
    rows: nat,
    threads: nat,
    ty: Seq<char>,
) -> (s: Seq<Sym<char>>)
    requires
        own == smem::A_BUFFER@ && row == "%baseRow"@ && ptr == "%A"@ || own == smem::B_BUFFER@ && row
            == "%baseCol"@ && ptr == "%B"@,
    ensures
        scan::passes(s),
        forall|n: Seq<char>| #[trigger]
            scan::put(s, n, ty) == parts::chunks(
                text::fill(smem::STAGE@, seq![row, ptr, text::fill(own, seq![n])]),
                rows * 16 / (threads * 8),
                threads,
            ),
{
    broadcast use {scan::lemma_put_plain, scan::lemma_put_named};

    frames::lemma_registers();
    scan::lemma_open_kinds();
    templates::lemma_smem_a_buffer();
    templates::lemma_smem_b_buffer();
    templates::lemma_smem_stage();
    let named = seq![scan::named()];
    scan::lemma_read_fill(own, named, seq![Kind::Name], scan::neutral());
    let sym = scan::open_fill(own, named);
    scan::lemma_ends(sym);
    let args = seq![scan::plain(row), scan::plain(ptr), sym];
    let body = frames::frame_fill(
        smem::STAGE@,
        args,
        seq![Kind::Calm, Kind::Calm, Kind::Ends(scan::at_name())],
        ty,
    );
    let s = frames::frame_chunks(body, rows * 16 / (threads * 8), threads, ty);
    assert forall|n: Seq<char>| #[trigger]
        scan::put(s, n, ty) == parts::chunks(
            text::fill(smem::STAGE@, seq![row, ptr, text::fill(own, seq![n])]),
            rows * 16 / (threads * 8),
            threads,
        ) by {
        scan::lemma_put_fill(own, named, n, ty);
        assert(scan::puts(named, n, ty) =~= seq![n]);
        assert(scan::puts(args, n, ty) =~= seq![row, ptr, text::fill(own, seq![n])]);
        assert(scan::put(body, n, ty) == text::fill(smem::STAGE@, scan::puts(args, n, ty)));
    }
    s
}

/// How a kernel knows the size of its problem.
pub open spec fn size_text(static_dims: Option<(usize, usize, usize)>) -> Seq<char> {
    match static_dims {
        Some(d) => text::fill(
            smem::STATIC_DIMS@,
            seq![text::dec(d.0 as nat), text::dec(d.1 as nat), text::dec(d.2 as nat)],
        ),
        None => parts::LOAD_DIMS@,
    }
}

/// A shared-memory kernel: the mark of an entry, and two texts for every name, with the problem size
/// between them.
pub proof fn frame_smem(
    bm: nat,
    bn: nat,
    warps_m: nat,
    warps_n: nat,
    ty: Seq<char>,
) -> (s: (Seq<Sym<char>>, Seq<Sym<char>>))
    ensures
        scan::passes(s.0),
        frames::begins(s.0),
        scan::passes(s.1),
        s.1.len() > 0,
        s.1.last() == Sym::Char('\n'),
        forall|n: Seq<char>, d: Option<(usize, usize, usize)>| #[trigger]
            smem::entry_smem_text(n, ty, bm, bn, warps_m, warps_n, d) == spelling::mark()
                + scan::put(s.0, n, ty) + size_text(d) + scan::put(s.1, n, ty),
{
    broadcast use {scan::lemma_put_plain, scan::lemma_passes_add, scan::lemma_tidy_add};

    let tm = bm / (16 * warps_m);
    let tn = bn / (16 * warps_n);
    let threads = warps_m * warps_n * 32;
    let width = parts::fragment_width(ty);
    let a = frame_smem_opening(bm, bn, tm, tn, width, ty);
    let setup = smem_setup(bm, bn, tm, tn, warps_n);
    lemma_smem_setup(bm, bn, tm, tn, warps_n);
    let body = frame_smem_loop(bm, bn, tm, tn, threads, ty);
    let store = text::each2(
        smem::STORE@,
        tm,
        tn,
        16,
        16,
        seq![text::dec(16 * tm), text::dec(16 * tn)],
    );
    lemma_smem_store(tm, tn);
    templates::lemma_parts_close();
    let close = parts::CLOSE@;
    let b1 = scan::plain(setup) + body;
    let b2 = b1 + scan::plain(store);
    let b = b2 + scan::plain(close);
    assert forall|n: Seq<char>, d: Option<(usize, usize, usize)>| #[trigger]
        smem::entry_smem_text(n, ty, bm, bn, warps_m, warps_n, d) == spelling::mark() + scan::put(
            a,
            n,
            ty,
        ) + size_text(d) + scan::put(b, n, ty) by {
        scan::lemma_put_add(scan::plain(setup), body, n, ty);
        scan::lemma_put_add(b1, scan::plain(store), n, ty);
        scan::lemma_put_add(b2, scan::plain(close), n, ty);
        let opening = smem_opening(n, bm, bn, tm, tn, width);
        let l = smem::smem_loop(n, ty, bm, bn, tm, tn, threads);
        assert(spelling::mark() + scan::put(a, n, ty) == opening);
        assert(scan::put(body, n, ty) == l);
        let q = opening + size_text(d);
        let x1 = parts::LOAD_POINTERS@;
        let x2 = text::fill(parts::TILE_ORIGIN@, seq![text::dec(bm), text::dec(bn)]);
        let x3 = text::fill(
            smem::WARP@,
            seq![text::dec(text::twos(warps_n)), text::dec((warps_n - 1) as nat), text::dec(16)],
        );
        let x4 = text::each2(parts::ACC_ZERO@, tm, tn, 0, 0, Seq::empty());
        assert(smem::smem_head(n, ty, bm, bn, tm, tn, warps_n, d) == q + x1 + x2 + x3 + x4);
        frames::lemma_regroup(q, x1, x2);
        frames::lemma_regroup(q, x1 + x2, x3);
        frames::lemma_regroup(q, x1 + x2 + x3, x4);
        frames::lemma_regroup(q, setup, l);
        frames::lemma_regroup(q, setup + l, store);
        frames::lemma_regroup(q, setup + l + store, close);
    }
    assert(b.len() > 0 && b.last() == Sym::Char('\n')) by {
        reveal_strlit(
            "    ret;
}
",
        );
    }
    (a, b)
}

/// The stores of a shared-memory kernel.
proof fn lemma_smem_store(tm: nat, tn: nat)
    ensures
        scan::tidy(
            text::each2(
                smem::STORE@,
                tm,
                tn,
                16,
                16,
                seq![text::dec(16 * tm), text::dec(16 * tn)],
            ),
        ),
{
    broadcast use scan::lemma_number;

    templates::lemma_smem_store();
    let four = seq![Kind::Calm, Kind::Calm, Kind::Calm, Kind::Calm];
    let two = seq![Kind::Calm, Kind::Calm];
    assert(four + two =~= seq![
        Kind::Calm,
        Kind::Calm,
        Kind::Calm,
        Kind::Calm,
        Kind::Calm,
        Kind::Calm,
    ]);
    frames::lemma_each2(
        smem::STORE@,
        tm,
        tn,
        16,
        16,
        seq![text::dec(16 * tm), text::dec(16 * tn)],
        two,
    );
}

/// The declarations of a plain kernel behind its signature.
proof fn lemma_plain_head(tm: nat, tn: nat, width: nat) -> (rest: Seq<char>)
    ensures
        scan::tidy(rest),
        forall|n: Seq<char>, ty: Seq<char>|
            parts::fragment_width(ty) == width ==> #[trigger] plain::entry_head(n, ty, tm, tn)
                == text::fill(parts::OPEN@, seq![n, ""@, ""@]) + rest,
{
    broadcast use {scan::lemma_number, scan::lemma_tidy_add};

    templates::lemma_plain_regs();
    templates::lemma_plain_pointer_regs();
    templates::lemma_plain_a_pointer_reg();
    templates::lemma_plain_b_pointer_reg();
    templates::lemma_plain_a_pointer();
    templates::lemma_plain_b_pointer();
    templates::lemma_parts_load_dims();
    templates::lemma_parts_load_pointers();
    templates::lemma_parts_tile_origin();
    templates::lemma_parts_acc_zero();
    lemma_fragment_regs(tm, tn, width);
    frames::lemma_each_0(plain::A_POINTER_REG@, tm, 0);
    frames::lemma_each_0(plain::B_POINTER_REG@, tn, 0);
    frames::lemma_each_0(plain::A_POINTER@, tm, 16);
    frames::lemma_each_0(plain::B_POINTER@, tn, 16);
    frames::lemma_each2_0(parts::ACC_ZERO@, tm, tn, 0, 0);
    let pa = text::each(plain::A_POINTER_REG@, tm, 0, Seq::empty());
    let pb = text::each(plain::B_POINTER_REG@, tn, 0, Seq::empty());
    scan::lemma_ends(scan::plain(pa));
    scan::lemma_ends(scan::plain(pb));
    scan::lemma_tidy_fill(
        plain::POINTER_REGS@,
        seq![pa, pb],
        seq![Kind::Ends(scan::neutral()), Kind::Ends(scan::neutral())],
    );
    scan::lemma_tidy_fill(
        parts::TILE_ORIGIN@,
        seq![text::dec(16 * tm), text::dec(16 * tn)],
        seq![Kind::Calm, Kind::Calm],
    );
    let x1 = plain::REGS@;
    let x2 = text::fill(parts::F32_REGS@, seq![parts::acc_list(tm, tn)]);
    let x3 = parts::ab_regs(tm, tn, width);
    let x4 = text::fill(plain::POINTER_REGS@, seq![pa, pb]);
    let x5 = parts::LOAD_DIMS@;
    let x6 = parts::LOAD_POINTERS@;
    let x7 = text::fill(parts::TILE_ORIGIN@, seq![text::dec(16 * tm), text::dec(16 * tn)]);
    let x8 = text::each2(parts::ACC_ZERO@, tm, tn, 0, 0, Seq::empty());
    let x9 = text::each(plain::A_POINTER@, tm, 16, Seq::empty());
    let x10 = text::each(plain::B_POINTER@, tn, 16, Seq::empty());
    let rest = x1 + x2 + x3 + x4 + x5 + x6 + x7 + x8 + x9 + x10;
    assert forall|n: Seq<char>, ty: Seq<char>|
        parts::fragment_width(ty) == width implies #[trigger] plain::entry_head(n, ty, tm, tn)
        == text::fill(parts::OPEN@, seq![n, ""@, ""@]) + rest by {
        let q = text::fill(parts::OPEN@, seq![n, ""@, ""@]);
        frames::lemma_regroup(q, x1, x2);
        frames::lemma_regroup(q, x1 + x2, x3);
        frames::lemma_regroup(q, x1 + x2 + x3, x4);
        frames::lemma_regroup(q, x1 + x2 + x3 + x4, x5);
        frames::lemma_regroup(q, x1 + x2 + x3 + x4 + x5, x6);
        frames::lemma_regroup(q, x1 + x2 + x3 + x4 + x5 + x6, x7);
        frames::lemma_regroup(q, x1 + x2 + x3 + x4 + x5 + x6 + x7, x8);
        frames::lemma_regroup(q, x1 + x2 + x3 + x4 + x5 + x6 + x7 + x8, x9);
        frames::lemma_regroup(q, x1 + x2 + x3 + x4 + x5 + x6 + x7 + x8 + x9, x10);
    }
    rest
}

/// The loop of a plain kernel.
proof fn frame_plain_loop(tm: nat, tn: nat, ty: Seq<char>) -> (s: Seq<Sym<char>>)
    ensures
        scan::passes(s),
        forall|n: Seq<char>| #[trigger] scan::put(s, n, ty) == plain::entry_loop(n, ty, tm, tn),
{
    broadcast use {
        scan::lemma_put_plain,
        scan::lemma_put_typed,
        scan::lemma_passes_add,
        scan::lemma_tidy_add,
    };

    let width = parts::fragment_width(ty);
    scan::lemma_open_kinds();
    lemma_letters();
    templates::lemma_plain_loop_start();
    templates::lemma_plain_load_a();
    templates::lemma_plain_load_b();
    templates::lemma_plain_a_advance();
    templates::lemma_plain_b_advance();
    frames::lemma_each_0(plain::A_ADVANCE@, tm, 0);
    frames::lemma_each_0(plain::B_ADVANCE@, tn, 0);
    let three = seq![Kind::Calm, Kind::Calm, Kind::Calm];
    assert(three + seq![Kind::Type] =~= seq![Kind::Calm, Kind::Calm, Kind::Calm, Kind::Type]);
    let more = seq![scan::typed()];
    let a = scan::plain(plain::LOOP_START@);
    let b = frames::frame_loop_head(ty);
    let c = frame_each_fragment(plain::LOAD_A@, "a"@, tm, width, 0, more, seq![Kind::Type], ty);
    let d = frame_each_fragment(plain::LOAD_B@, "b"@, tn, width, 0, more, seq![Kind::Type], ty);
    let types = frame_wmma_types(ty);
    let e = frame_wmma_grid(types, tm, tn, width, ty);
    let f = scan::plain(text::each(plain::A_ADVANCE@, tm, 0, Seq::empty()));
    let g = scan::plain(text::each(plain::B_ADVANCE@, tn, 0, Seq::empty()));
    let h = frames::frame_loop_tail(16, ty);
    let s = a + b + c + d + e + f + g + h;
    assert forall|n: Seq<char>| #[trigger]
        scan::put(s, n, ty) == plain::entry_loop(n, ty, tm, tn) by {
        scan::lemma_put_add(a, b, n, ty);
        scan::lemma_put_add(a + b, c, n, ty);
        scan::lemma_put_add(a + b + c, d, n, ty);
        scan::lemma_put_add(a + b + c + d, e, n, ty);
        scan::lemma_put_add(a + b + c + d + e, f, n, ty);
        scan::lemma_put_add(a + b + c + d + e + f, g, n, ty);
        scan::lemma_put_add(a + b + c + d + e + f + g, h, n, ty);
        assert(scan::puts(more, n, ty) =~= seq![ty]);
        assert(scan::put(types, n, ty) == parts::wmma_types(ty));
        assert(scan::put(b, n, ty) == text::fill(parts::LOOP_HEAD@, seq![n]));
        assert(scan::put(c, n, ty) == parts::each_fragment(
            plain::LOAD_A@,
            "a"@,
            tm,
            width,
            0,
            scan::puts(more, n, ty),
        ));
        assert(scan::put(d, n, ty) == parts::each_fragment(
            plain::LOAD_B@,
            "b"@,
            tn,
            width,
            0,
            scan::puts(more, n, ty),
        ));
        assert(scan::put(e, n, ty) == parts::wmma_grid(scan::put(types, n, ty), tm, tn, width));
        assert(scan::put(h, n, ty) == text::fill(parts::LOOP_TAIL@, seq![n, text::dec(16)]));
    }
    s
}

/// A plain kernel: the mark of an entry, and one text for every name.
pub proof fn frame_plain(tm: nat, tn: nat, ty: Seq<char>) -> (s: Seq<Sym<char>>)
    ensures
        spelling::kernel(s),
        forall|n: Seq<char>|
            spelling::mark() + #[trigger] scan::put(s, n, ty) == plain::entry_text(n, ty, tm, tn),
{
    broadcast use {
        scan::lemma_put_plain,
        scan::lemma_passes_add,
        scan::lemma_tidy_add,
        frames::lemma_begins_add,
    };

    scan::lemma_tidy_empty();
    let rest = lemma_plain_head(tm, tn, parts::fragment_width(ty));
    let a = frames::frame_open(""@, ""@, ty);
    let l = frame_plain_loop(tm, tn, ty);
    templates::lemma_plain_store();
    templates::lemma_parts_close();
    frames::lemma_each2_0(plain::STORE@, tm, tn, 16, 16);
    let store = text::each2(plain::STORE@, tm, tn, 16, 16, Seq::empty());
    let close = parts::CLOSE@;
    let s1 = a + scan::plain(rest);
    let s2 = s1 + l;
    let s3 = s2 + scan::plain(store);
    let s = s3 + scan::plain(close);
    let m = spelling::mark();
    assert forall|n: Seq<char>|
        m + #[trigger] scan::put(s, n, ty) == plain::entry_text(n, ty, tm, tn) by {
        scan::lemma_put_add(a, scan::plain(rest), n, ty);
        scan::lemma_put_add(s1, l, n, ty);
        scan::lemma_put_add(s2, scan::plain(store), n, ty);
        scan::lemma_put_add(s3, scan::plain(close), n, ty);
        let pa = scan::put(a, n, ty);
        let pl = scan::put(l, n, ty);
        assert(m + pa == text::fill(parts::OPEN@, seq![n, ""@, ""@]));
        assert(pl == plain::entry_loop(n, ty, tm, tn));
        assert(plain::entry_head(n, ty, tm, tn) == m + pa + rest);
        frames::lemma_regroup(m, pa, rest);
        frames::lemma_regroup(m, pa + rest, pl);
        frames::lemma_regroup(m, pa + rest + pl, store);
        frames::lemma_regroup(m, pa + rest + pl + store, close);
    }
    assert(s.last() == Sym::Char('\n')) by {
        reveal_strlit(
            "    ret;
}
",
        );
    }
    s
}

} // verus!
