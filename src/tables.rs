//! Coefficient tables of the rational envelope approximations used by the
//! asymptotic Bessel evaluators, as IEEE-754 bit patterns.
//!
//! Each table has one row per magnitude band, ordered from the band
//! nearest 2 to the unbounded band; `crate::bessel` picks the row. A row
//! holds the numerator coefficients `R` and the denominator coefficients `S`
//! of `R(z) / S(z)` with `z = 1/x^2`, lowest degree first; the leading 1 of
//! each denominator is implicit.
use vstd::prelude::*;

verus! {

/// Numerators of the order-0 P envelope, single precision: `pzero(x) = 1 + R/S`, error below 2^-60.26.
pub const PZERO_NUM_32: [[u32; 6]; 4] = [
    [0xb3be_98b7u32, 0xbd8f_fb12u32, 0xbfb9_b1ccu32, 0xc0f4_579fu32, 0xc133_1736u32, 0xc04e_f40du32],
    [0xb12f_081bu32, 0xbd8f_ffb8u32, 0xc01a_2d95u32, 0xc1af_ba52u32, 0xc268_5112u32, 0xc1fb_9565u32],
    [0xad48_c58au32, 0xbd8f_ffffu32, 0xc085_1b88u32, 0xc287_597bu32, 0xc3a5_9d9bu32, 0xc3ad_3779u32],
    [0x0000_0000u32, 0xbd90_0000u32, 0xc101_4e86u32, 0xc380_8814u32, 0xc51b_5376u32, 0xc5a4_285au32],
];

/// Denominators of the order-0 P envelope, single precision: `pzero(x) = 1 + R/S`, error below 2^-60.26.
pub const PZERO_DEN_32: [[u32; 5]; 4] = [
    [0x41b1_c32du32, 0x4308_34f0u32, 0x4387_3c32u32, 0x4319_e01au32, 0x416a_859au32],
    [0x420f_6c94u32, 0x43b4_c1cau32, 0x4495_3373u32, 0x448c_ffe6u32, 0x432d_94b8u32],
    [0x4273_0408u32, 0x4483_6813u32, 0x45ba_d7c4u32, 0x4616_65c8u32, 0x4516_60eeu32],
    [0x42e9_1198u32, 0x456f_9bebu32, 0x471e_95dbu32, 0x47e4_087cu32, 0x473a_0bbau32],
];

/// Numerators of the order-0 Q envelope, single precision: `qzero(x) = (-1/8 + R/S) / x`, error below 2^-61.22.
pub const QZERO_NUM_32: [[u32; 6]; 4] = [
    [0x3421_89dbu32, 0x3d95_f62au32, 0x3fff_c4bfu32, 0x4167_edfdu32, 0x41fd_5471u32, 0x4182_058cu32],
    [0x3196_681bu32, 0x3d95_ff70u32, 0x4056_07e3u32, 0x422a_7cc5u32, 0x432a_cedfu32, 0x4326_bbe4u32],
    [0x2da1_ec79u32, 0x3d95_ffffu32, 0x40ba_bd86u32, 0x4307_1c90u32, 0x4480_67cdu32, 0x44f8_bf4bu32],
    [0x0000_0000u32, 0x3d96_0000u32, 0x413c_4a93u32, 0x440b_6b19u32, 0x460a_6ccau32, 0x4710_96a0u32],
];

/// Denominators of the order-0 Q envelope, single precision: `qzero(x) = (-1/8 + R/S) / x`, error below 2^-61.22.
pub const QZERO_DEN_32: [[u32; 6]; 4] = [
    [0x41f2_ecb8u32, 0x4386_ac8fu32, 0x4453_3229u32, 0x445c_bbe5u32, 0x4354_aa98u32, 0xc0a9_f358u32],
    [0x4243_0916u32, 0x4431_6c1cu32, 0x4567_825fu32, 0x45c9_e367u32, 0x451d_4557u32, 0xc315_3f59u32],
    [0x42a5_8da0u32, 0x4501_dd07u32, 0x4693_3e94u32, 0x475d_af1du32, 0x470c_88c1u32, 0xc5a7_52beu32],
    [0x4323_c6aau32, 0x45fd_12c2u32, 0x480b_3293u32, 0x4944_1ed4u32, 0x494d_3359u32, 0xc8a7_eb69u32],
];

/// Numerators of the order-1 P envelope, double precision: `pone(x) = 1 + R/S`, error below 2^-60.06.
pub const PONE_NUM_64: [[u64; 6]; 4] = [
    [0x3e7c_e9d4_f655_44f4u64, 0x3fbd_ff42_be76_0d83u64, 0x4002_f2b7_f98f_aec0u64, 0x4028_7c37_7f71_a964u64, 0x4031_b1a8_177f_8ee2u64, 0x4014_4b49_a574_c1feu64],
    [0x3e29_fc21_a7ad_9eddu64, 0x3fbd_fff5_5b21_d17bu64, 0x400f_76bc_e85e_ad8au64, 0x4041_8f48_9da6_d129u64, 0x4056_c385_4d2c_1837u64, 0x4048_478f_8ea8_3ee5u64],
    [0x3dad_0667_dae1_ca7du64, 0x3fbd_ffff_e2c1_0043u64, 0x401b_3604_6e63_15e3u64, 0x405b_13b9_4526_02edu64, 0x4080_2d16_d052_d649u64, 0x4080_85b8_bb7e_0cb7u64],
    [0x0000_0000_0000_0000u64, 0x3fbd_ffff_ffff_fcceu64, 0x402a_7a9d_357f_7fceu64, 0x4079_c0d4_652e_a590u64, 0x40ae_457d_a3a5_32ccu64, 0x40be_ea7a_c327_82ddu64],
];

/// Denominators of the order-1 P envelope, double precision: `pone(x) = 1 + R/S`, error below 2^-60.06.
pub const PONE_DEN_64: [[u64; 5]; 4] = [
    [0x4035_6fbd_8ad5_ecdcu64, 0x405f_5293_14f9_2cd5u64, 0x406d_08d8_d5a2_dbd9u64, 0x405d_6b7a_da18_84a9u64, 0x4020_bab1_f44e_5192u64],
    [0x4041_6549_a134_069cu64, 0x4075_0c33_07f1_a75fu64, 0x4090_5b7c_5037_d523u64, 0x408b_d67d_a32e_31e9u64, 0x4059_f26d_7c2e_ed53u64],
    [0x404d_a3ea_a8af_633du64, 0x408e_fb36_1b06_6701u64, 0x40b4_e944_5706_b6fbu64, 0x40be_a4b0_b8a5_bb15u64, 0x4097_8030_036f_5e51u64],
    [0x405c_8d45_8e65_6cacu64, 0x40ac_85dc_964d_274fu64, 0x40e2_0b86_97c5_bb7fu64, 0x40f7_d42c_b28f_17bbu64, 0x40de_1511_697a_0b2du64],
];

/// Numerators of the order-1 Q envelope, double precision: `qone(x) = (3/8 + R/S) / x`, error below 2^-61.13.
pub const QONE_NUM_64: [[u64; 6]; 4] = [
    [0xbe87_f126_44c6_26d2u64, 0xbfba_3e8e_9148_b010u64, 0xc006_0484_69bb_4edau64, 0xc033_a9e2_c168_907fu64, 0xc045_29a3_de10_4aaau64, 0xc035_5f36_39cf_6e52u64],
    [0xbe35_cfa9_d38f_c84fu64, 0xbfba_3feb_51ae_ed54u64, 0xc012_70c2_3302_d9ffu64, 0xc04c_ec71_c25d_16dau64, 0xc06c_87d3_4718_d55fu64, 0xc06b_66b9_5f5c_1bf6u64],
    [0xbdb6_fa43_1aa1_a098u64, 0xbfba_3fff_cb59_7fefu64, 0xc020_1ce6_ca03_ad4bu64, 0xc066_f56d_6ca7_b9b0u64, 0xc095_74c6_6931_734fu64, 0xc0a4_68e3_88fd_a79du64],
    [0x0000_0000_0000_0000u64, 0xbfba_3fff_ffff_fdf3u64, 0xc030_4591_a267_79f7u64, 0xc087_bcd0_53e4_b576u64, 0xc0c7_24e7_40f8_7415u64, 0xc0e7_a6d0_65d0_9c6au64],
];

/// Denominators of the order-1 Q envelope, double precision: `qone(x) = (3/8 + R/S) / x`, error below 2^-61.13.
pub const QONE_DEN_64: [[u64; 6]; 4] = [
    [0x403d_888a_78ae_64ffu64, 0x406f_9f68_db82_1cbau64, 0x4087_ac05_ce49_a0f7u64, 0x4087_1b25_48d4_c029u64, 0x4063_7e5e_3c3e_d8d4u64, 0xc013_d686_e71b_e86bu64],
    [0x4047_d523_ccd3_67e4u64, 0x4085_0eeb_c031_ee3eu64, 0x40aa_684e_448e_7c9au64, 0x40b5_abba_a61d_54a6u64, 0x409d_bc7a_0dd4_df4bu64, 0xc060_e670_290a_311fu64],
    [0x4054_51b2_ff5a_11b2u64, 0x409f_1f31_e77b_f839u64, 0x40d1_0f1f_0d64_ce29u64, 0x40e8_576d_aaba_d197u64, 0x40db_4b04_cf7c_364bu64, 0xc0b2_6f2e_fcff_a004u64],
    [0x4064_2ca6_de5b_cde5u64, 0x40be_9162_d0d8_8419u64, 0x4100_579a_b0b7_5e98u64, 0x4125_f653_7286_9c19u64, 0x4124_57d2_7719_ad5cu64, 0xc111_f969_0ea5_aa18u64],
];

} // verus!
