//! Tensor maps: their geometry, the rules on it and the driver's values.
use cudarc::driver::sys::CUtensorMap;
use cudarc::driver::sys::CUtensorMapDataType_enum as DataType;
use cudarc::driver::sys::CUtensorMapFloatOOBfill_enum as OobFill;
use cudarc::driver::sys::CUtensorMapInterleave_enum as Interleave;
use cudarc::driver::sys::CUtensorMapL2promotion_enum as L2;
use cudarc::driver::sys::CUtensorMapSwizzle_enum as Swizzle;
use wukong_gpu::tma_host::{
    ptx_param_address, ptx_param_decl, TensorMapArgs, TmaDataType, TmaInterleave, TmaL2Promotion,
    TmaOobFill, TmaSwizzle, TENSOR_MAP_ALIGN, TENSOR_MAP_BYTES,
};

/// The fp16 A operand of a product: `M x K`, row-major, in tiles of `128 x 64`.
fn a_operand(m: u64, k: u64) -> TensorMapArgs {
    TensorMapArgs::tiled_2d_row_major(TmaDataType::F16, m, k, k, 128, 64, TmaSwizzle::Off)
}

#[test]
fn dimension_zero_is_the_contiguous_axis() {
    let a = a_operand(4096, 4096);
    assert_eq!(a.rank, 2);
    assert_eq!(
        a.global_dim[0], 4096,
        "dim 0 must be the K (contiguous) axis"
    );
    assert_eq!(a.global_dim[1], 4096, "dim 1 must be the M (row) axis");
    assert_eq!(a.global_strides[0], 4096 * 2, "row stride, in BYTES");
    assert_eq!(a.box_dim, [64, 128, 0, 0, 0], "box is [box_cols, box_rows]");
    assert_eq!(a.element_strides, [1, 1, 0, 0, 0]);
    a.validate().expect("the shipped A operand must validate");
}

#[test]
fn a_strided_view_keeps_the_parent_stride_and_the_view_extent() {
    let v = TensorMapArgs::tiled_2d_row_major(
        TmaDataType::F16,
        256,
        128,
        4096,
        128,
        64,
        TmaSwizzle::Off,
    );
    assert_eq!(v.global_dim[0], 128);
    assert_eq!(v.global_strides[0], 4096 * 2);
    v.validate().unwrap();
}

#[test]
fn transaction_bytes_is_the_product_of_the_box() {
    assert_eq!(a_operand(4096, 4096).transaction_bytes(), 128 * 64 * 2);
    let b = TensorMapArgs::tiled_2d_row_major(
        TmaDataType::F16,
        4096,
        4096,
        4096,
        256,
        64,
        TmaSwizzle::Off,
    );
    assert_eq!(b.transaction_bytes(), 256 * 64 * 2);
    assert_eq!(
        a_operand(4096, 4096).transaction_bytes() + b.transaction_bytes(),
        49152,
        "one 128x256x64 stage: D1 section 3.1's 49168 B minus CUTLASS's 16 B of pipeline state"
    );
}

#[test]
fn a_valid_box_moves_a_bounded_number_of_bytes() {
    for (dt, rows, cols) in [
        (TmaDataType::U8, 1u32, 16u32),
        (TmaDataType::F16, 256, 256),
        (TmaDataType::Bf16, 3, 8),
        (TmaDataType::F32, 256, 256),
    ] {
        let map = |extent: u64| {
            TensorMapArgs::tiled_2d_row_major(
                dt,
                extent,
                extent,
                extent,
                rows,
                cols,
                TmaSwizzle::Off,
            )
        };
        let small = map(1024);
        small.validate().unwrap();
        let bytes = small.transaction_bytes();
        assert_eq!(bytes, dt.size() * rows as usize * cols as usize);
        assert_eq!(bytes % 16, 0);
        assert!(bytes >= 16 && bytes <= dt.size() * 256 * 256);
        let large = map(1 << 20);
        large.validate().unwrap();
        assert_eq!(large.transaction_bytes(), bytes);
    }
}

#[test]
fn element_size_is_per_type() {
    assert_eq!(TmaDataType::U8.size(), 1);
    assert_eq!(TmaDataType::F16.size(), 2);
    assert_eq!(TmaDataType::Bf16.size(), 2);
    assert_eq!(TmaDataType::F32.size(), 4);
}

#[test]
fn validate_rejects_every_documented_violation() {
    let ok = a_operand(4096, 4096);
    ok.validate().unwrap();

    let mut bad = ok;
    bad.rank = 0;
    assert!(bad.validate().unwrap_err().contains("rank 0"));
    bad = ok;
    bad.rank = 6;
    assert!(bad.validate().unwrap_err().contains("rank 6"));

    bad = ok;
    bad.global_dim[0] = 0;
    assert!(bad
        .validate()
        .unwrap_err()
        .contains("global_dim[0] is zero"));

    bad = ok;
    bad.global_dim[1] = 1u64 << 33;
    assert!(bad.validate().unwrap_err().contains("2^32 element limit"));

    bad = ok;
    bad.box_dim[1] = 257;
    assert!(bad.validate().unwrap_err().contains("box_dim[1] = 257"));
    bad.box_dim[1] = 0;
    assert!(bad.validate().unwrap_err().contains("box_dim[1] = 0"));

    bad = ok;
    bad.element_strides[0] = 9;
    assert!(bad
        .validate()
        .unwrap_err()
        .contains("element_strides[0] = 9"));

    bad = ok;
    bad.global_dim[2] = 7;
    assert!(bad.validate().unwrap_err().contains("past rank 2"));
    bad = ok;
    bad.global_strides[1] = 16;
    assert!(bad
        .validate()
        .unwrap_err()
        .contains("global_strides[1] is past rank 2"));

    bad = ok;
    bad.global_strides[0] = 24;
    assert!(bad.validate().unwrap_err().contains("multiple of 16"));
    bad = ok;
    bad.global_strides[0] = 0;
    assert!(bad.validate().unwrap_err().contains("is zero"));
    bad = ok;
    bad.global_strides[0] = 1u64 << 41;
    assert!(bad.validate().unwrap_err().contains("exceeds 2^40"));
    bad = ok;
    bad.global_strides[0] = 16; // 4096 f16 = 8192 B of row, described by a 16 B stride
    assert!(bad
        .validate()
        .unwrap_err()
        .contains("shorter than dimension"));

    bad = ok;
    bad.box_dim[0] = 4; // 4 f16 = 8 B
    assert!(bad.validate().unwrap_err().contains("multiple of 16"));

    bad = ok;
    bad.interleave = TmaInterleave::B32;
    assert!(bad.validate().unwrap_err().contains("interleave"));
}

#[test]
fn the_swizzle_atom_bounds_the_contiguous_box_extent() {
    assert_eq!(TmaSwizzle::Off.atom_bytes(), 0);
    assert_eq!(TmaSwizzle::B32.atom_bytes(), 32);
    assert_eq!(TmaSwizzle::B64.atom_bytes(), 64);
    assert_eq!(TmaSwizzle::B128.atom_bytes(), 128);

    let bk64 =
        |sw| TensorMapArgs::tiled_2d_row_major(TmaDataType::F16, 4096, 4096, 4096, 128, 64, sw);
    bk64(TmaSwizzle::Off).validate().unwrap();
    bk64(TmaSwizzle::B128).validate().unwrap();
    for sw in [TmaSwizzle::B64, TmaSwizzle::B32] {
        let e = bk64(sw).validate().unwrap_err();
        assert!(e.contains("swizzle atom"), "{e}");
    }
    let bk = |cols, sw| {
        TensorMapArgs::tiled_2d_row_major(TmaDataType::F16, 4096, 4096, 4096, 128, cols, sw)
            .validate()
    };
    bk(32, TmaSwizzle::B64).unwrap();
    bk(16, TmaSwizzle::B32).unwrap();
    assert!(bk(32, TmaSwizzle::B32).is_err());
}

#[test]
fn the_ptx_parameter_declaration_matches_the_driver_abi() {
    assert_eq!(TENSOR_MAP_BYTES, 128);
    assert_eq!(TENSOR_MAP_ALIGN, 64);
    assert_eq!(ptx_param_decl("tmap_a"), ".param .align 64 .b8 tmap_a[128]");
    let addr = ptx_param_address("%rdA", "tmap_a");
    assert!(addr.contains("mov.b64 %rdA,tmap_a;"));
    assert!(
        addr.contains("cvta.param.u64 %rdA,%rdA;"),
        "without cvta.param the bulk-tensor copy reads a .param address as generic"
    );
    assert!(addr.is_ascii());
}

#[test]
fn enum_discriminants_match_the_driver() {
    assert_eq!(TmaSwizzle::Off.driver_code(), 0);
    assert_eq!(TmaSwizzle::B32.driver_code(), 1);
    assert_eq!(TmaSwizzle::B64.driver_code(), 2);
    assert_eq!(TmaSwizzle::B128.driver_code(), 3);
    assert_eq!(TmaDataType::F16.driver_code(), 6);
    assert_eq!(TmaDataType::F32.driver_code(), 7);
    assert_eq!(TmaDataType::Bf16.driver_code(), 9);
    assert_eq!(TmaOobFill::Zero.driver_code(), 0);
    assert_eq!(TmaInterleave::Off.driver_code(), 0);
    assert_eq!(TmaL2Promotion::B128.driver_code(), 2);

    for (s, code) in [
        (TmaSwizzle::Off, Swizzle::CU_TENSOR_MAP_SWIZZLE_NONE),
        (TmaSwizzle::B32, Swizzle::CU_TENSOR_MAP_SWIZZLE_32B),
        (TmaSwizzle::B64, Swizzle::CU_TENSOR_MAP_SWIZZLE_64B),
        (TmaSwizzle::B128, Swizzle::CU_TENSOR_MAP_SWIZZLE_128B),
    ] {
        assert_eq!(s.driver_code(), code as u32);
    }
    for (t, code) in [
        (TmaDataType::U8, DataType::CU_TENSOR_MAP_DATA_TYPE_UINT8),
        (TmaDataType::U16, DataType::CU_TENSOR_MAP_DATA_TYPE_UINT16),
        (TmaDataType::U32, DataType::CU_TENSOR_MAP_DATA_TYPE_UINT32),
        (TmaDataType::F16, DataType::CU_TENSOR_MAP_DATA_TYPE_FLOAT16),
        (TmaDataType::F32, DataType::CU_TENSOR_MAP_DATA_TYPE_FLOAT32),
        (TmaDataType::Bf16, DataType::CU_TENSOR_MAP_DATA_TYPE_BFLOAT16),
    ] {
        assert_eq!(t.driver_code(), code as u32);
    }
    for (f, code) in [
        (TmaOobFill::Zero, OobFill::CU_TENSOR_MAP_FLOAT_OOB_FILL_NONE),
        (
            TmaOobFill::NanRequestZeroFma,
            OobFill::CU_TENSOR_MAP_FLOAT_OOB_FILL_NAN_REQUEST_ZERO_FMA,
        ),
    ] {
        assert_eq!(f.driver_code(), code as u32);
    }
    for (i, code) in [
        (TmaInterleave::Off, Interleave::CU_TENSOR_MAP_INTERLEAVE_NONE),
        (TmaInterleave::B16, Interleave::CU_TENSOR_MAP_INTERLEAVE_16B),
        (TmaInterleave::B32, Interleave::CU_TENSOR_MAP_INTERLEAVE_32B),
    ] {
        assert_eq!(i.driver_code(), code as u32);
    }
    for (p, code) in [
        (TmaL2Promotion::Off, L2::CU_TENSOR_MAP_L2_PROMOTION_NONE),
        (TmaL2Promotion::B64, L2::CU_TENSOR_MAP_L2_PROMOTION_L2_64B),
        (TmaL2Promotion::B128, L2::CU_TENSOR_MAP_L2_PROMOTION_L2_128B),
        (TmaL2Promotion::B256, L2::CU_TENSOR_MAP_L2_PROMOTION_L2_256B),
    ] {
        assert_eq!(p.driver_code(), code as u32);
    }
}

#[test]
fn a_parameter_is_as_large_as_a_tensor_map() {
    assert_eq!(std::mem::size_of::<CUtensorMap>(), TENSOR_MAP_BYTES);
    assert_eq!(std::mem::align_of::<CUtensorMap>(), TENSOR_MAP_ALIGN);
}

#[test]
fn an_encode_call_carries_the_geometry() {
    let a = a_operand(4096, 512);
    let call = a.encode_call(0x1000).unwrap();
    assert_eq!(call.data_type, 6);
    assert_eq!(call.rank, 2);
    assert_eq!(call.global_address, 0x1000);
    assert_eq!(call.global_dim, [512, 4096, 0, 0, 0]);
    assert_eq!(call.global_strides, [1024, 0, 0, 0]);
    assert_eq!(call.box_dim, [64, 128, 0, 0, 0]);
    assert_eq!(call.element_strides, [1, 1, 0, 0, 0]);
    assert_eq!(call.interleave, 0);
    assert_eq!(call.swizzle, 0);
}

#[test]
fn an_encode_call_needs_an_aligned_address() {
    let a = a_operand(4096, 4096);
    let Err(null) = a.encode_call(0) else {
        panic!("a null address has no tensor map");
    };
    assert_eq!(null, "tma: global address is null");
    let Err(odd) = a.encode_call(0x1f08) else {
        panic!("an unaligned address has no tensor map");
    };
    assert_eq!(odd, "tma: global address 0x1f08 is not 16-byte aligned");
    let mut bad = a;
    bad.rank = 0;
    let Err(rank) = bad.encode_call(0x1000) else {
        panic!("a map of rank 0 has no tensor map");
    };
    assert_eq!(rank, "tma: rank 0 outside 1..=5");
}
