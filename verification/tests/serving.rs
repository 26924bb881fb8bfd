//! The blocks of a cache, the host half of a decode step, and continuous batching.
use wukong_gpu::block_manager::BlockManager;
use wukong_gpu::paged_kv::OutOfBlocks;
use wukong_gpu::ptx_wmma::modules::wmma_f16_ptx;
use wukong_gpu::serving::batch::Request;
use wukong_gpu::serving::layer::{
    cast_cfg, norm_cfg, wmma_sm_cfg, Activation, Buf, DecodeLayer, KvDtype, Launch, Product,
    TransformerWeights, Weight,
};
use wukong_gpu::serving::model::{DecodeModel, KvConfig};
use wukong_gpu::serving::scheduler::{Launching, Scheduler};

fn config(
    layers: usize,
    num_slots: usize,
    num_blocks: usize,
    max_blocks_per_seq: usize,
) -> KvConfig {
    KvConfig {
        layers,
        heads: 4,
        head_dim: 64,
        block_size: 16,
        num_blocks,
        num_slots,
        max_blocks_per_seq,
    }
}

/// The sizes of a layer's weights.
fn weights(d: usize, dff: usize) -> TransformerWeights {
    TransformerWeights {
        wq: d * d,
        wk: d * d,
        wv: d * d,
        wo: d * d,
        w1: dff * d,
        w2: d * dff,
    }
}

/// A model of a geometry, with an inner width of 256.
fn model_of(cfg: KvConfig) -> DecodeModel {
    assert!(DecodeLayer::supported(cfg, 256));
    let sets = vec![weights(cfg.heads * cfg.head_dim, 256); cfg.layers];
    DecodeModel::new(&sets, cfg, 256)
}

/// A mask of 64 slots.
fn only(slots: &[usize]) -> Vec<bool> {
    (0..64).map(|s| slots.contains(&s)).collect()
}

/// One step, with nothing on the device: the tokens that it emitted.
fn step(sched: &mut Scheduler) -> usize {
    let Some(advance) = sched.begin_step().unwrap() else {
        return 0;
    };
    if advance.table.is_some() {
        sched.model.table_uploaded();
    }
    sched.retire_finished();
    advance.mask.iter().filter(|&&m| m == 1).count()
}

#[test]
fn serving_scheduler_drains_and_conserves_blocks() {
    let (bsz, bcap, depth) = (16usize, 64usize, 2usize);
    let max_bps = (40usize + 24).div_ceil(bsz) + 2;
    let num_blocks = bcap * max_bps + 32;
    let cfg = config(depth, bcap, num_blocks, max_bps);
    let nreq: usize = 240;
    let reqs: Vec<Request> = (0..nreq)
        .map(|i| Request {
            prompt_len: 1 + (i * 7) % 40,
            gen_len: 1 + (i * 5) % 24,
        })
        .collect();
    let total_gen: usize = reqs.iter().map(|r| r.gen_len).sum();

    let drive = || -> (usize, usize, usize, usize, Vec<usize>) {
        let model = model_of(cfg);
        let init_free = model.cache().free_blocks();
        let mut sched = Scheduler::new(model);
        for &r in &reqs {
            sched.enqueue(r);
        }
        let mut trace = Vec::new();
        let mut steps = 0;
        while !sched.is_idle() {
            let n = step(&mut sched);
            trace.push(n);
            steps += 1;
            assert!(steps < 100_000, "scheduler failed to drain (liveness)");
        }
        (sched.completed(), sched.emitted(), sched.free_blocks(), init_free, trace)
    };

    let (completed, emitted, free_end, init_free, trace1) = drive();
    assert_eq!(completed, nreq, "every request completes");
    assert_eq!(emitted, total_gen, "useful tokens == sum of gen_len");
    assert_eq!(free_end, init_free, "all KV blocks returned to the pool (no leak)");
    let (_, _, _, _, trace2) = drive();
    assert_eq!(trace1, trace2, "scheduler schedule is deterministic");
}

#[test]
fn serving_scheduler_retires_zero_gen_len_request() {
    let model = model_of(config(1, 64, 160, 4));
    let init_free = model.cache().free_blocks();
    let mut sched = Scheduler::new(model);
    sched.enqueue(Request {
        prompt_len: 8,
        gen_len: 0,
    });
    let mut steps = 0usize;
    while !sched.is_idle() {
        step(&mut sched);
        steps += 1;
        assert!(steps <= 4, "gen_len==0 never retired");
    }
    assert_eq!(steps, 1, "one floored token, and out the same step");
    assert_eq!(sched.completed(), 1, "the request completes");
    assert_eq!(sched.emitted(), 1, "gen_len is floored at one token");
    assert_eq!(sched.free_blocks(), init_free, "the blocks return to the pool");
}

#[test]
fn serving_failed_advance_leaves_allocator_unchanged() {
    let bcap = 64usize;
    let mut model = model_of(config(1, bcap, 160, 2));
    model.reserve(0, 5).unwrap();
    model.reserve(1, 5).unwrap();
    model.reserve(3, 32).unwrap();
    let before: Vec<usize> = (0..bcap).map(|b| model.cache().context_len(b)).collect();
    let free_before = model.cache().free_blocks();
    let epoch_before = model.cache().layout_epoch();

    assert!(
        model.advance_and_upload_masked(&vec![true; bcap]).is_err(),
        "slot 3 is at its max_blocks_per_seq cap, so the advance must fail"
    );
    let after: Vec<usize> = (0..bcap).map(|b| model.cache().context_len(b)).collect();
    assert_eq!(before, after, "a failed advance must not advance any slot's context length");
    assert_eq!(free_before, model.cache().free_blocks(), "nor consume physical blocks");
    assert_eq!(epoch_before, model.cache().layout_epoch(), "nor move the layout epoch");
    let mut mask = vec![true; bcap];
    mask[3] = false;
    model.advance_and_upload_masked(&mask).unwrap();
    for b in 0..bcap {
        let want = before[b] + usize::from(b != 3);
        assert_eq!(model.cache().context_len(b), want, "slot {b} advance");
    }
}

#[test]
fn serving_static_batching_admits_only_when_drained() {
    let (bsz, bcap, depth) = (16usize, 64usize, 1usize);
    let max_bps = (40usize + 24).div_ceil(bsz) + 2;
    let num_blocks = bcap * max_bps + 32;
    let nreq: usize = 96;
    let reqs: Vec<Request> = (0..nreq)
        .map(|i| Request {
            prompt_len: 1 + (i * 7) % 40,
            gen_len: 1 + (i * 5) % 24,
        })
        .collect();
    let total_gen: usize = reqs.iter().map(|r| r.gen_len).sum();

    let model = model_of(config(depth, bcap, num_blocks, max_bps));
    let init_free = model.cache().free_blocks();
    let mut sched = Scheduler::new_static(model);
    for &r in &reqs {
        sched.enqueue(r);
    }
    let (mut steps, mut batches) = (0usize, 0usize);
    let mut prev_active_after = 0usize;
    let mut prev_admitted = 0usize;
    while !sched.is_idle() {
        step(&mut sched);
        if sched.admitted() > prev_admitted {
            assert_eq!(prev_active_after, 0, "static batching refilled a slot mid-flight");
            prev_admitted = sched.admitted();
            batches += 1;
        }
        prev_active_after = sched.num_active();
        steps += 1;
        assert!(steps < 100_000, "static scheduler failed to drain (liveness)");
    }
    assert_eq!(sched.completed(), nreq, "every request completes");
    assert_eq!(sched.emitted(), total_gen, "useful tokens == sum of gen_len");
    assert_eq!(sched.free_blocks(), init_free, "all KV blocks returned to the pool");
    assert!(batches >= nreq / bcap, "at least ceil(NREQ/Bcap) admission waves");
}

#[test]
fn two_slots_cannot_share_the_last_block() {
    let mut model = model_of(config(1, 64, 3, 2));
    model.reserve(0, 16).unwrap();
    model.reserve(1, 16).unwrap();
    assert_eq!(model.cache().free_blocks(), 1);
    assert!(model.cache().can_grow(0, 1) && model.cache().can_grow(1, 1));
    let both = model.advance_and_upload_masked(&only(&[0, 1]));
    assert_eq!(both.unwrap_err(), OutOfBlocks);
    assert_eq!((model.cache().context_len(0), model.cache().context_len(1)), (16, 16));
    assert_eq!(model.cache().free_blocks(), 1);
    let advance = model.advance_and_upload_masked(&only(&[1])).unwrap();
    assert_eq!(&advance.wpos[..3], &[16, 16, 0]);
    assert_eq!(&advance.mask[..3], &[0, 1, 0]);
    assert_eq!(&advance.lens[..3], &[16, 17, 0]);
    let table = advance.table.unwrap();
    assert_eq!(table.len(), 128);
    assert_eq!(&table[..6], &[0, 0, 1, 2, 0, 0]);
}

#[test]
fn every_slot_advances() {
    let mut model = model_of(config(1, 64, 64, 1));
    let advance = model.advance_and_upload().unwrap();
    assert_eq!(advance.wpos, vec![0; 64]);
    assert_eq!(advance.lens, vec![1; 64]);
    assert_eq!(advance.mask, vec![1; 64]);
    assert_eq!(model.cache().free_blocks(), 0);
}

#[test]
fn a_block_table_is_uploaded_only_when_it_changed() {
    let mut model = model_of(config(1, 64, 4, 4));
    let mask = only(&[0]);
    let want: Vec<u32> = [0, 1, 0, 0].into_iter().chain(vec![0; 252]).collect();
    model.reserve(0, 15).unwrap();
    assert!(model.advance_and_upload_masked(&mask).unwrap().table.is_some());
    model.table_uploaded();
    let grows = model.advance_and_upload_masked(&mask).unwrap();
    assert_eq!(grows.table.as_ref(), Some(&want));
    model.table_uploaded();
    assert!(model.advance_and_upload_masked(&mask).unwrap().table.is_none());
    model.upload_metadata(&vec![3; 256], &vec![1; 64], &vec![0; 64], &vec![1; 64]);
    let again = model.advance_and_upload_masked(&mask).unwrap();
    assert_eq!(again.table.as_ref(), Some(&want));
}

#[test]
fn a_step_is_recorded_once() {
    let mut sched = Scheduler::new(model_of(config(1, 64, 160, 4)));
    assert_eq!(sched.launching(7, 9), Launching::Capture);
    sched.captured(7, 9);
    sched.enqueue(Request {
        prompt_len: 8,
        gen_len: 2,
    });
    while !sched.is_idle() {
        assert_eq!(sched.launching(7, 9), Launching::Replay);
        step(&mut sched);
    }
    assert_eq!(sched.launching(7, 9), Launching::Replay);
}

#[test]
fn a_recording_changes_no_step() {
    let drive = |recorded: bool| {
        let mut sched = Scheduler::new(model_of(config(2, 64, 320, 5)));
        if recorded {
            sched.captured(7, 9);
        }
        for i in 0..100usize {
            sched.enqueue(Request {
                prompt_len: i % 40,
                gen_len: i % 7,
            });
        }
        let mut trace = Vec::new();
        while !sched.is_idle() {
            let emitted = step(&mut sched);
            trace.push((emitted, sched.completed(), sched.free_blocks()));
        }
        trace
    };
    assert_eq!(drive(true), drive(false));
}

#[test]
fn a_batch_drains_within_its_tokens() {
    for nreq in [1usize, 63, 64, 200] {
        let mut sched = Scheduler::new(model_of(config(1, 64, 256, 4)));
        let mut tokens = 0usize;
        for i in 0..nreq {
            let gen_len = (i * 5) % 24;
            tokens += gen_len.max(1);
            sched.enqueue(Request {
                prompt_len: (i * 7) % 40,
                gen_len,
            });
        }
        let mut steps = 0usize;
        while !sched.is_idle() {
            step(&mut sched);
            steps += 1;
        }
        assert!(steps <= tokens, "{steps} steps for {tokens} tokens");
        assert_eq!(sched.completed(), nreq);
        assert_eq!(sched.emitted(), tokens);
        assert_eq!(sched.free_blocks(), 256);
    }
}

#[test]
fn tokens_lie_where_the_flat_table_says() {
    let (bsz, bcap) = (16usize, 8usize);
    let wpos = [5usize, 0, 16, 31, 3, 20, 12, 47];
    let max_bps = wpos.iter().copied().max().unwrap().div_ceil(bsz) + 2;
    let num_blocks = bcap * max_bps + 4;
    let mut mgr = BlockManager::new(num_blocks, bsz, bcap, max_bps);
    for b in 0..bcap {
        mgr.reserve(b, wpos[b] + 1).unwrap();
    }
    let table = mgr.flat_block_table();
    assert_eq!(table.len(), bcap * max_bps);
    let mut places = Vec::new();
    for b in 0..bcap {
        for pos in 0..=wpos[b] {
            let (block, off) = mgr.locate(b, pos);
            assert_eq!(table[b * max_bps + pos / bsz], block);
            assert_eq!(off, pos % bsz);
            places.push((block, off));
        }
    }
    let n = places.len();
    places.sort_unstable();
    places.dedup();
    assert_eq!(places.len(), n, "no two tokens share a place");
    assert_eq!(mgr.ctx_lens(), vec![6, 1, 17, 32, 4, 21, 13, 48]);
}

#[test]
fn freeing_undoes_growing() {
    let mut mgr = BlockManager::new(8, 16, 2, 4);
    mgr.reserve(0, 20).unwrap();
    let before = mgr.flat_block_table();
    let epoch = mgr.layout_epoch();
    mgr.reserve(1, 33).unwrap();
    assert_eq!(mgr.free_blocks(), 3);
    assert_eq!(mgr.flat_block_table(), vec![0, 1, 0, 0, 2, 3, 4, 0]);
    mgr.free(1);
    assert_eq!(mgr.free_blocks(), 6);
    assert_eq!(mgr.flat_block_table(), before);
    assert_eq!(mgr.layout_epoch(), epoch + 2);
    mgr.free(1);
    assert_eq!(mgr.layout_epoch(), epoch + 2, "an empty slot has nothing to give back");
    assert_eq!(mgr.reserve(1, 65), Err(OutOfBlocks), "a table has four blocks");
    assert_eq!(mgr.append(1), Ok(()));
    assert_eq!(mgr.context_len(1), 1);
}

#[test]
fn a_large_request_does_not_hold_up_the_queue() {
    let model = model_of(config(1, 64, 4, 8));
    let mut sched = Scheduler::new(model);
    for prompt_len in [100, 16, 32] {
        sched.enqueue(Request {
            prompt_len,
            gen_len: 1,
        });
    }
    assert_eq!(sched.admit_waiting(), 2, "the two that fit pass the one that does not");
    assert_eq!((sched.num_active(), sched.pending(), sched.free_blocks()), (2, 1, 1));
    assert_eq!(sched.model().cache().context_len(0), 16);
    assert_eq!(sched.model().cache().context_len(1), 32);
}

#[test]
fn a_window_bounds_the_search() {
    let model = model_of(config(1, 64, 2, 2));
    let mut sched = Scheduler::new(model);
    for _ in 0..64 {
        sched.enqueue(Request {
            prompt_len: 100,
            gen_len: 1,
        });
    }
    sched.enqueue(Request {
        prompt_len: 1,
        gen_len: 1,
    });
    assert_eq!(sched.admit_waiting(), 0);
    assert_eq!(sched.pending(), 65);
    assert!(sched.begin_step().unwrap().is_none(), "nothing is in flight");
}

#[test]
fn layers_alternate_between_two_buffers() {
    let links = |depth: usize| -> Vec<(Activation, Activation)> {
        let model = model_of(config(depth, 64, 160, 4));
        assert_eq!(model.depth(), depth);
        model.run_layers_on().iter().map(|run| (run.src, run.dst)).collect()
    };
    assert_eq!(links(1), vec![(Activation::Input, Activation::Output)]);
    assert_eq!(
        links(4),
        vec![
            (Activation::Input, Activation::Ping),
            (Activation::Ping, Activation::Pong),
            (Activation::Pong, Activation::Ping),
            (Activation::Ping, Activation::Output),
        ]
    );
    let runs = model_of(config(3, 64, 160, 4)).run_layers_on();
    assert_eq!(
        runs[2].launches[6],
        Launch::Attend {
            q: Buf::Q,
            dst: Buf::Attn,
            layer: 2
        }
    );
}

#[test]
fn a_layer_launches_in_order() {
    let cfg = config(1, 64, 160, 4);
    assert!(DecodeLayer::supported(cfg, 128));
    assert!(!DecodeLayer::supported(cfg, 100), "the inner width is in whole tiles");
    let mut wide = cfg;
    wide.head_dim = 32;
    assert!(!DecodeLayer::supported(wide, 128), "a head is 64 or 128 wide");
    let layer = DecodeLayer::new(&weights(256, 128), cfg, 128);
    assert_eq!((layer.d(), layer.bcap()), (256, 64));
    assert!(layer.fits(&weights(256, 128)));
    assert!(!layer.fits(&weights(256, 64)));
    assert_eq!((layer.attention_module(), layer.append_module()), ("paged_attn_d64", "kv_append"));
    let int8 = DecodeLayer::new_with_dtype(&weights(256, 128), cfg, 128, KvDtype::Int8);
    assert_eq!(
        (int8.attention_module(), int8.append_module()),
        ("paged_attn_int8_d64", "kv_append_int8")
    );
    let launches = layer.forward_step_on(KvDtype::F16, 3);
    assert_eq!(launches.len(), 14);
    assert_eq!(
        launches[0],
        Launch::Norm {
            src: Buf::X,
            dst: Buf::Norm1,
            rows: 64,
            cols: 256
        }
    );
    assert_eq!(
        launches[5],
        Launch::Append {
            keys: Buf::K,
            values: Buf::V,
            layer: 3
        }
    );
    assert_eq!(
        launches[13],
        Launch::Gemm {
            product: Product::Residual(Buf::X1),
            src: Buf::UpHalf,
            weight: Weight::W2,
            dst: Buf::Out,
            m: 64,
            k: 128,
            n: 256
        }
    );
}

#[test]
fn the_kernels_of_a_layer_are_defined() {
    let ptx = wmma_f16_ptx();
    for product in [Product::Plain, Product::Silu, Product::Residual(Buf::X)] {
        let kernel = DecodeLayer::product_kernel(product);
        assert_eq!(kernel.module, "wmma_f16");
        assert!(ptx.contains(&format!(".visible .entry {}(", kernel.entry)));
    }
    let launch = wmma_sm_cfg(64, 256);
    assert_eq!(launch.grid, (4, 1, 1));
    assert_eq!(launch.block, (128, 1, 1));
    assert_eq!(norm_cfg(64).grid, (64, 1, 1));
    assert_eq!(norm_cfg(64).block, (32, 1, 1));
    assert_eq!(cast_cfg(64 * 256).grid, (16, 1, 1));
    assert_eq!(cast_cfg(1025).grid, (2, 1, 1));
    assert_eq!(cast_cfg(1).block, (1024, 1, 1));
    assert_eq!(DecodeLayer::norm_kernel().entry, "rmsnorm");
    assert_eq!(DecodeLayer::cast_kernel().entry, "cast_f32_f16");
}
