//! Every element of a block's tile of C is stored once, and it is the result for that element.
use vstd::arithmetic::power2::*;
use vstd::prelude::*;

use crate::ptx_wmma::lanes;
use crate::ptx_wmma::machine;
use crate::ptx_wmma::machine::Machine;
use crate::ptx_wmma::mma;
use crate::ptx_wmma::mma_pipe;
use crate::ptx_wmma::places;
use crate::ptx_wmma::places::{acc, accumulator, home, sub_tile};
use crate::text;

verus! {

/// The name of one accumulator tells its sub-tile and its number.
proof fn lemma_names_apart(i: nat, j: nat, k: nat, i2: nat, j2: nat, k2: nat)
    requires
        acc(sub_tile(i, j), k) == acc(sub_tile(i2, j2), k2),
    ensures
        i == i2,
        j == j2,
        k == k2,
{
    let a = acc(sub_tile(i, j), k);
    lemma_name(i, j, k);
    lemma_name(i2, j2, k2);
}

/// The parts of a name can be read off it.
proof fn lemma_name(i: nat, j: nat, k: nat)
    ensures
        ({
            let a = acc(sub_tile(i, j), k).skip(2);
            let x = machine::first(a, '_');
            let b = a.skip(x + 1);
            let y = machine::first(b, '_');
            &&& machine::number(a.take(x)) == i
            &&& machine::number(b.take(y)) == j
            &&& machine::number(b.skip(y + 1)) == k
        }),
{
    machine::lemma_number(i);
    machine::lemma_number(j);
    machine::lemma_number(k);
    let (x, y, z) = (text::dec(i), text::dec(j), text::dec(k));
    let a = acc(sub_tile(i, j), k).skip(2);
    let b = y + seq!['_'] + z;
    assert(a =~= x + seq!['_'] + b);
    assert(machine::lacks(x, '_'));
    assert(machine::lacks(y, '_'));
    machine::lemma_first(x, '_', b);
    machine::lemma_first(y, '_', z);
    assert(a.take(x.len() as int) =~= x);
    assert(a.skip(x.len() as int + 1) =~= b);
    assert(b.take(y.len() as int) =~= y);
    assert(b.skip(y.len() as int + 1) =~= z);
}

/// An accumulator of a sub-tile is one.
proof fn lemma_accumulator(i: nat, j: nat, k: nat)
    ensures
        accumulator(acc(sub_tile(i, j), k)),
{
    places::lemma_sub_tile(i, j);
    machine::lemma_number(k);
}

/// Whether result `k` of sub-tile `(i, j)` is this one: two neighbouring columns in one row, then
/// the same eight rows below.
pub open spec fn is_result(
    m: Machine,
    e: mma_pipe::Epilogue,
    i: nat,
    j: nat,
    k: nat,
    stored: (int, machine::Term),
) -> bool {
    let h = home(m);
    let row = h.row + 16 * i + 8 * (k / 2);
    let col = h.col + 8 * j + k % 2;
    &&& stored.0 == h.element(row, col)
    &&& stored.1 == h.finished(e, (m.float)(acc(sub_tile(i, j), k)), row, col)
}

/// The four results of a sub-tile.
proof fn lemma_results(m: Machine, e: mma_pipe::Epilogue, i: nat, j: nat, k: nat)
    requires
        k < 4,
    ensures
        places::results(m, e, i, j).len() == 4,
        is_result(m, e, i, j, k, places::results(m, e, i, j)[k as int]),
{
    assert(k == 0 || k == 1 || k == 2 || k == 3);
}

/// Whether a machine is at the same home with the same accumulators of the sub-tiles that are yet
/// to come: those of later rows, and of row `i` from `n` on.
pub open spec fn still(m: Machine, e: Machine, i: nat, n: nat) -> bool {
    &&& home(e) == home(m)
    &&& forall|i2: nat, j2: nat, k: nat|
        i2 > i || i2 == i && j2 >= n ==> #[trigger] (e.float)(acc(sub_tile(i2, j2), k)) == (
        m.float)(acc(sub_tile(i2, j2), k))
}

/// The first `n` sub-tiles of a row store their results.
proof fn lemma_row(m: Machine, e: mma_pipe::Epilogue, i: nat, n: nat)
    ensures
        ({
            let t = e.row(i, n);
            let end = m.through(t);
            let at = m.stores.len() as int;
            &&& t.len() == 0 || t.last() == '\n'
            &&& still(m, end, i, n)
            &&& end.stores.len() == at + 4 * n
            &&& end.stores.take(at) == m.stores
            &&& forall|j: nat, k: nat|
                j < n && k < 4 ==> is_result(
                    m,
                    e,
                    i,
                    j,
                    k,
                    #[trigger] end.stores[at + 4 * j + k],
                )
        }),
    decreases n,
{
    reveal(mma_pipe::Epilogue::row);
    machine::lemma_reads_nothing();
    let at = m.stores.len() as int;
    if n == 0 {
        assert(e.row(i, n) =~= Seq::<char>::empty());
        assert(m.through(e.row(i, n)) == m);
        assert(m.stores.take(at) =~= m.stores);
    } else {
        let last = (n - 1) as nat;
        lemma_row(m, e, i, last);
        let before = e.row(i, last);
        let mid = m.through(before);
        let tile = e.tile(i, last);
        m.lemma_through_add(before, tile);
        places::lemma_tile(mid, e, i, last);
        let end = mid.through(tile);
        assert((before + tile).last() == tile.last());
        let d = sub_tile(i, last);
        places::lemma_acc(d);
        assert forall|i2: nat, j2: nat, k: nat|
            i2 > i || i2 == i && j2 >= n implies #[trigger] (end.float)(acc(sub_tile(i2, j2), k))
            == (m.float)(acc(sub_tile(i2, j2), k)) by {
            lemma_accumulator(i2, j2, k);
            let a = acc(sub_tile(i2, j2), k);
            if a == acc(d, 0) {
                lemma_names_apart(i2, j2, k, i, last, 0);
            }
            if a == acc(d, 1) {
                lemma_names_apart(i2, j2, k, i, last, 1);
            }
            if a == acc(d, 2) {
                lemma_names_apart(i2, j2, k, i, last, 2);
            }
            if a == acc(d, 3) {
                lemma_names_apart(i2, j2, k, i, last, 3);
            }
            assert((mid.float)(a) == (m.float)(a));
        }
        let now = places::results(mid, e, i, last);
        assert(end.stores.take(at) =~= mid.stores.take(at));
        assert forall|j: nat, k: nat| j < n && k < 4 implies is_result(
            m,
            e,
            i,
            j,
            k,
            #[trigger] end.stores[at + 4 * j + k],
        ) by {
            if j < last {
                assert(end.stores[at + 4 * j + k] == mid.stores[at + 4 * j + k]);
            } else {
                lemma_results(mid, e, i, last, k);
                assert(end.stores[at + 4 * j + k] == now[k as int]);
                assert((mid.float)(acc(sub_tile(i, last), k)) == (m.float)(
                    acc(sub_tile(i, last), k),
                ));
            }
        }
    }
}

/// The end of a kernel stores the results of all sub-tiles of a warp, one after the other and no
/// others: result `k` of sub-tile `(i, j)`, which is made of the accumulator of that name, goes to
/// the element of C that is `16 i + 8 (k / 2)` rows and `8 j + k % 2` columns from where the lane
/// stands, with the bias of that column and the residual of that element.
pub proof fn law_results_go_where_they_were_accumulated(
    m: Machine,
    e: mma_pipe::Epilogue,
    tm: nat,
    tn: nat,
)
    ensures
        ({
            let t = e.tiles(tm, tn);
            let end = m.through(t);
            let at = m.stores.len() as int;
            &&& t.len() == 0 || t.last() == '\n'
            &&& home(end) == home(m)
            &&& end.stores.len() == at + 4 * (tm * tn)
            &&& end.stores.take(at) == m.stores
            &&& forall|i: nat, j: nat, k: nat|
                i < tm && j < tn && k < 4 ==> is_result(
                    m,
                    e,
                    i,
                    j,
                    k,
                    #[trigger] end.stores[at + 4 * (i * tn + j) + k],
                )
        }),
    decreases tm,
{
    lemma_tiles(m, e, tm, tn);
}

/// See [`law_results_go_where_they_were_accumulated`].
proof fn lemma_tiles(m: Machine, e: mma_pipe::Epilogue, tm: nat, tn: nat)
    ensures
        ({
            let t = e.tiles(tm, tn);
            let end = m.through(t);
            let at = m.stores.len() as int;
            &&& t.len() == 0 || t.last() == '\n'
            &&& still(m, end, tm, 0)
            &&& end.stores.len() == at + 4 * (tm * tn)
            &&& end.stores.take(at) == m.stores
            &&& forall|i: nat, j: nat, k: nat|
                i < tm && j < tn && k < 4 ==> is_result(
                    m,
                    e,
                    i,
                    j,
                    k,
                    #[trigger] end.stores[at + 4 * (i * tn + j) + k],
                )
        }),
    decreases tm,
{
    reveal(mma_pipe::Epilogue::tiles);
    machine::lemma_reads_nothing();
    let at = m.stores.len() as int;
    if tm == 0 {
        assert(e.tiles(tm, tn) =~= Seq::<char>::empty());
        assert(m.through(e.tiles(tm, tn)) == m);
        assert(m.stores.take(at) =~= m.stores);
        assert(0 * tn == 0);
    } else {
        let last = (tm - 1) as nat;
        lemma_tiles(m, e, last, tn);
        let before = e.tiles(last, tn);
        let mid = m.through(before);
        let row = e.row(last, tn);
        m.lemma_through_add(before, row);
        lemma_row(mid, e, last, tn);
        let end = mid.through(row);
        if row.len() == 0 {
            assert(before + row =~= before);
        } else {
            assert((before + row).last() == row.last());
        }
        assert(tm * tn == last * tn + tn) by (nonlinear_arith)
            requires
                tm == last + 1,
        ;
        assert forall|i2: nat, j2: nat, k: nat|
            i2 > tm || i2 == tm && j2 >= 0 implies #[trigger] (end.float)(acc(sub_tile(i2, j2), k))
            == (m.float)(acc(sub_tile(i2, j2), k)) by {
            assert((mid.float)(acc(sub_tile(i2, j2), k)) == (m.float)(acc(sub_tile(i2, j2), k)));
        }
        assert(end.stores.take(at) =~= end.stores.take(mid.stores.len() as int).take(at));
        assert forall|i: nat, j: nat, k: nat| i < tm && j < tn && k < 4 implies is_result(
            m,
            e,
            i,
            j,
            k,
            #[trigger] end.stores[at + 4 * (i * tn + j) + k],
        ) by {
            let n = at + 4 * (i * tn + j) + k;
            if i < last {
                assert(i * tn + tn <= last * tn) by (nonlinear_arith)
                    requires
                        i < last,
                ;
                assert(i * tn >= 0) by (nonlinear_arith);
                assert(end.stores.take(mid.stores.len() as int)[n] == end.stores[n]);
                assert(is_result(m, e, i, j, k, mid.stores[at + 4 * (i * tn + j) + k]));
            } else {
                assert(n == mid.stores.len() + 4 * j + k);
                assert(is_result(
                    mid,
                    e,
                    last,
                    j,
                    k,
                    end.stores[mid.stores.len() as int + 4 * j + k],
                ));
                assert((mid.float)(acc(sub_tile(last, j), k)) == (m.float)(
                    acc(sub_tile(last, j), k),
                ));
            }
        }
    }
}

/// A thread stores its elements of the block's tile: whatever its lane was told of the block, result
/// `k` of sub-tile `(i, j)` goes to the row and the column of C that [`lanes::row_of`] and
/// [`lanes::col_of`] say, from the origin of the tile. With
/// [`lanes::law_each_element_has_one_owner`], every element of the tile is stored once.
pub proof fn law_a_thread_stores_its_elements(
    m: Machine,
    s: mma::MmaShape,
    e: mma_pipe::Epilogue,
    tid: nat,
    i: nat,
    j: nat,
    k: nat,
)
    requires
        s.warps_m > 0,
        is_pow2(s.warps_n as int),
        tid < s.threads() <= u32::MAX,
        (m.held)("%tid.x"@) == tid,
        i < s.tm(),
        j < s.tn(),
        k < 4,
    ensures
        ({
            let end = m.through(s.lanes()).through(e.tiles(s.tm(), s.tn()));
            let row = (m.held)("%baseRow"@) + lanes::row_of(s, tid, i, k);
            let col = (m.held)("%baseCol"@) + lanes::col_of(s, tid, j, k);
            let at = m.stores.len() + 4 * (i * s.tn() + j) + k;
            let h = home(m);
            &&& end.stores.len() == m.stores.len() + 4 * (s.tm() * s.tn())
            &&& end.stores[at as int].0 == (m.held)("%C"@) + 4 * (row * (m.held)("%N"@) + col)
            &&& end.stores[at as int].1 == h.finished(
                e,
                (m.float)(acc(sub_tile(i, j), k)),
                row,
                col,
            )
        }),
{
    lanes::law_where_a_lane_stands(m, s, tid);
    let mid = m.through(s.lanes());
    law_results_go_where_they_were_accumulated(mid, e, s.tm(), s.tn());
    let end = mid.through(e.tiles(s.tm(), s.tn()));
    assert(lanes::given("%baseRow"@) && lanes::given("%baseCol"@) && lanes::given("%N"@));
    assert(lanes::given("%C"@) && lanes::given("%Bias"@) && lanes::given("%Resid"@));
    assert(is_result(
        mid,
        e,
        i,
        j,
        k,
        end.stores[mid.stores.len() as int + 4 * (i * s.tn() + j) + k],
    ));
}

} // verus!
