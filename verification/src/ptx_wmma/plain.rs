//! The WMMA kernel that reads its fragments straight from global memory.
use vstd::prelude::*;
use vstd::string::*;

use crate::ptx_wmma::parts;
use crate::text;

verus! {

pub const REGS: &'static str = "{
    .reg .pred %p0;
    .reg .b32 %M,%N,%K,%baseRow,%baseCol,%kt,%tmp;
";

pub const POINTER_REGS: &'static str = "    .reg .b64 %A,%B,%C,%off,%cptr#0#1;
";

pub const A_POINTER_REG: &'static str = ",%aptr#0";

pub const B_POINTER_REG: &'static str = ",%bptr#0";

pub const A_POINTER: &'static str = "    add.u32 %tmp,%baseRow,#1;
    mul.lo.s32 %tmp,%tmp,%K;
    mul.wide.u32 %off,%tmp,2;
    add.s64 %aptr#0,%A,%off;
";

pub const B_POINTER: &'static str = "    add.u32 %tmp,%baseCol,#1;
    mul.lo.s32 %tmp,%tmp,%K;
    mul.wide.u32 %off,%tmp,2;
    add.s64 %bptr#0,%B,%off;
";

pub const LOOP_START: &'static str = "    mov.u32 %kt,0;
";

pub const LOAD_A: &'static str =
    "    wmma.load.a.sync.aligned.m16n16k16.row.#3 #2, [%aptr#0], %K;
";

pub const LOAD_B: &'static str =
    "    wmma.load.b.sync.aligned.m16n16k16.col.#3 #2, [%bptr#0], %K;
";

pub const A_ADVANCE: &'static str = "    add.s64 %aptr#0,%aptr#0,32;
";

pub const B_ADVANCE: &'static str = "    add.s64 %bptr#0,%bptr#0,32;
";

pub const STORE: &'static str = "    add.u32 %tmp,%baseRow,#2;
    mul.lo.s32 %tmp,%tmp,%N;
    add.u32 %tmp,%tmp,%baseCol;
    add.u32 %tmp,%tmp,#3;
    mul.wide.u32 %off,%tmp,4;
    add.s64 %cptr,%C,%off;
    wmma.store.d.sync.aligned.m16n16k16.row.f32 [%cptr], {%c#0_#1_0,%c#0_#1_1,%c#0_#1_2,%c#0_#1_3,%c#0_#1_4,%c#0_#1_5,%c#0_#1_6,%c#0_#1_7}, %N;
";

/// The declarations and the addresses of the tiles of a warp.
pub open spec fn entry_head(name: Seq<char>, ty: Seq<char>, tm: nat, tn: nat) -> Seq<char> {
    text::fill(parts::OPEN@, seq![name, ""@, ""@]) + REGS@ + text::fill(
        parts::F32_REGS@,
        seq![parts::acc_list(tm, tn)],
    ) + parts::ab_regs(tm, tn, parts::fragment_width(ty)) + text::fill(
        POINTER_REGS@,
        seq![
            text::each(A_POINTER_REG@, tm, 0, Seq::empty()),
            text::each(B_POINTER_REG@, tn, 0, Seq::empty()),
        ],
    ) + parts::LOAD_DIMS@ + parts::LOAD_POINTERS@ + text::fill(
        parts::TILE_ORIGIN@,
        seq![text::dec(16 * tm), text::dec(16 * tn)],
    ) + text::each2(parts::ACC_ZERO@, tm, tn, 0, 0, Seq::empty()) + text::each(
        A_POINTER@,
        tm,
        16,
        Seq::empty(),
    ) + text::each(B_POINTER@, tn, 16, Seq::empty())
}

/// The K loop: each step loads `tm` A and `tn` B fragments and multiplies every pair.
pub open spec fn entry_loop(name: Seq<char>, ty: Seq<char>, tm: nat, tn: nat) -> Seq<char> {
    let width = parts::fragment_width(ty);
    LOOP_START@ + text::fill(parts::LOOP_HEAD@, seq![name]) + parts::each_fragment(
        LOAD_A@,
        "a"@,
        tm,
        width,
        0,
        seq![ty],
    ) + parts::each_fragment(LOAD_B@, "b"@, tn, width, 0, seq![ty]) + parts::wmma_grid(
        parts::wmma_types(ty),
        tm,
        tn,
        width,
    ) + text::each(A_ADVANCE@, tm, 0, Seq::empty()) + text::each(
        B_ADVANCE@,
        tn,
        0,
        Seq::empty(),
    ) + text::fill(parts::LOOP_TAIL@, seq![name, text::dec(16)])
}

/// The kernel of [`entry`].
pub open spec fn entry_text(name: Seq<char>, ty: Seq<char>, tm: nat, tn: nat) -> Seq<char> {
    entry_head(name, ty, tm, tn) + entry_loop(name, ty, tm, tn) + text::each2(
        STORE@,
        tm,
        tn,
        16,
        16,
        Seq::empty(),
    ) + parts::CLOSE@
}

/// Generate a WMMA GEMM entry computing `C = A·Bᵀ`, with each warp owning a `tm×tn` grid of 16×16
/// tiles. `ty` is "f16" or "bf16"; `name` is also used as the unique label tag.
pub fn entry(name: &str, ty: &str, tm: usize, tn: usize) -> (s: String)
    requires
        16 * tm <= usize::MAX,
        16 * tn <= usize::MAX,
    ensures
        s@ == entry_text(name@, ty@, tm as nat, tn as nat),
{
    let width: usize = parts::width_of(ty);
    let mut head = text::expand3(parts::OPEN, name, "", "");
    head.append(REGS);
    head.append(&text::expand1(parts::F32_REGS, &parts::acc_list_of(tm, tn)));
    head.append(&parts::ab_regs_of(tm, tn, width));
    head.append(
        &text::expand2(
            POINTER_REGS,
            &text::each_0(A_POINTER_REG, tm, 0),
            &text::each_0(B_POINTER_REG, tn, 0),
        ),
    );
    head.append(parts::LOAD_DIMS);
    head.append(parts::LOAD_POINTERS);
    head.append(
        &text::expand2(parts::TILE_ORIGIN, &text::decimal(16 * tm), &text::decimal(16 * tn)),
    );
    head.append(&text::each2_0(parts::ACC_ZERO, tm, tn, 0, 0));
    head.append(&text::each_0(A_POINTER, tm, 16));
    head.append(&text::each_0(B_POINTER, tn, 16));

    let mut body = String::from_str(LOOP_START);
    body.append(&text::expand1(parts::LOOP_HEAD, name));
    body.append(&parts::each_fragment_1(LOAD_A, "a", tm, width, 0, ty));
    body.append(&parts::each_fragment_1(LOAD_B, "b", tn, width, 0, ty));
    body.append(&parts::wmma_grid_of(&parts::wmma_types_of(ty), tm, tn, width));
    body.append(&text::each_0(A_ADVANCE, tm, 0));
    body.append(&text::each_0(B_ADVANCE, tn, 0));
    body.append(&text::expand2(parts::LOOP_TAIL, name, &text::decimal(16)));

    let mut s = head;
    s.append(&body);
    s.append(&text::each2_0(STORE, tm, tn, 16, 16));
    s.append(parts::CLOSE);
    s
}

} // verus!
