//! The order of the scalar field is prime. The proof is a certificate by the
//! test of Lucas: 22 has order `n - 1` modulo the order `n`, and the prime
//! factors of `n - 1` are 2, 3, 5, 7, 13, 499, `x` = 9586122913090633729
//! and `(x + 1) / 10`. Each step of a power names the quotient and the
//! remainder of one product.

use crate::prime_factors::{
    lemma_prime_2,
    lemma_prime_3,
    lemma_prime_5,
    lemma_prime_7,
    lemma_prime_13,
    lemma_prime_499,
    lemma_prime_9586122913090633729,
    lemma_prime_958612291309063373,
};
use crate::primes::{
    is_prime_modulus, lemma_certified_push, lemma_certified_start, lemma_lucas_certified,
    lemma_power_doubles, lemma_power_of_power, lemma_power_steps, power,
};
use crate::scalar::modulus;
use vstd::prelude::*;

verus! {

/// Part 1 of `lemma_modulus_root`.
proof fn lemma_modulus_root_part_1()
    ensures
        power(22, 8514, 0x12ab655e9a2ca556_60b44d1e5c37b001_59aa76fed0000001_0a11800000000001nat) == 0x5d37a1df55c4abf_3e8e4e7367d99029_0fec6f35a6bf33bb_36b4231541c22990nat,
{
    let b: nat = 22;
    let n: nat = 0x12ab655e9a2ca556_60b44d1e5c37b001_59aa76fed0000001_0a11800000000001nat;
    lemma_power_steps(b, 0, n, 1, 0, b);
    let v0: nat = b;
    let v1: nat = 484;
    lemma_power_doubles(b, 1, n, v0, 0, v1);
    let v2: nat = 234256;
    lemma_power_doubles(b, 2, n, v1, 0, v2);
    let v3: nat = 0xcc6db6100nat;
    lemma_power_doubles(b, 4, n, v2, 0, v3);
    let v4: nat = 0xa3_3f092e0b1ac10000nat;
    lemma_power_doubles(b, 8, n, v3, 0, v4);
    let v5: nat = 0x6819_55362721ce00ddaa_ab61c58100000000nat;
    lemma_power_doubles(b, 16, n, v4, 0, v5);
    let v6: nat = 0x8f22d_52a75ce7b4130caa_ba66f91600000000nat;
    lemma_power_steps(b, 32, n, v5, 0, v6);
    let v7: nat = 0x180d5b675e756a1_5fab5cf66c20635d_2db1eb9c58601037_6bf3fbb69981b2f8nat;
    lemma_power_doubles(b, 33, n, v6, 0x449667e4d08nat, v7);
    let v8: nat = 0x76defb5fbb0737b_9c9f4c2131d72022_bd59fc19cbedfd0d_0f50c8d963cef92fnat;
    lemma_power_doubles(b, 66, n, v7, 0x1efc9a18e3b07c_17bc6b24ccb11c09_2295f561fdb23a57_9b3ec968e73ed711nat, v8);
    let v9: nat = 0xe176eaecfc4c1ec_700e21e766bf42f1_7867f2410673bf17_006542ae93c96a02nat;
    lemma_power_steps(b, 132, n, v8, 8, v9);
    let v10: nat = 0x10978c813ca75041_a3413b25edad3421_646bf3d857639c22_3032573bff404d80nat;
    lemma_power_doubles(b, 133, n, v9, 0xaa2d90ea1d77e68_828effa2a751df13_dba07ac773166817_b321b9b1efc95a84nat, v10);
    let v11: nat = 0x27c3539c9dce142_64e3096c15b30f9f_b902171ae0967509_2e68ed4a2cdcbcd8nat;
    lemma_power_doubles(b, 266, n, v10, 0xebee29d87dd4845_62a1e1aca6125c1a_ccd2af3d5c131cec_6b2cf641aa998328nat, v11);
    let v12: nat = 0x23dc38ac3b98147_b4aee4e544bee61b_1f166ba7a0d31ec8_1a4babcaca49e77anat;
    lemma_power_doubles(b, 532, n, v11, 0x54b04a35d582d8_00d6fbaeb52b6a16_d6201bef88eef22c_e3cd105494440ec6nat, v12);
    let v13: nat = 0x58eb461a9198567_5d87835cd40630a3_82e31b9fd1c46e7c_38f527398c5514benat;
    lemma_power_doubles(b, 1064, n, v12, 0x44e149aac09187_8f6aa821e13193a6_80bc3a95189bdf2d_3bc4d7f0d08c5166nat, v13);
    let v14: nat = 0x6b5fbb7cd0fe3df_5cbd74b2c545b5eb_7d3a494f97c6c86e_4091148ab37c7486nat;
    lemma_power_doubles(b, 2128, n, v13, 0x1a780c314736a32_15827f743f9c884b_a4f2779468a37284_29a03707e45dc87enat, v14);
    let v15: nat = 0x10f3dc3568250fd5_5359eb886e77d233_4f590bdf5b153972_45fd43eb6cb2037dnat;
    lemma_power_steps(b, 4256, n, v14, 7, v15);
    let v16: nat = 0x5d37a1df55c4abf_3e8e4e7367d99029_0fec6f35a6bf33bb_36b4231541c22990nat;
    lemma_power_doubles(b, 4257, n, v15, 0xf64bf062bc81dd6_7aceb80036822fea_2f547aebf528ab26_2764e123101e0179nat, v16);
}

/// Part 2 of `lemma_modulus_root`.
proof fn lemma_modulus_root_part_2()
    ensures
        power(22, 0x8508c00nat, 0x12ab655e9a2ca556_60b44d1e5c37b001_59aa76fed0000001_0a11800000000001nat) == 0x90919d05dc2ddf6_0a4c3278a77d4a0a_b6756995d2e01e0b_0278c5dda2fab45dnat,
{
    let b: nat = 22;
    let n: nat = 0x12ab655e9a2ca556_60b44d1e5c37b001_59aa76fed0000001_0a11800000000001nat;
    lemma_modulus_root_part_1();
    let v0: nat = 0x5d37a1df55c4abf_3e8e4e7367d99029_0fec6f35a6bf33bb_36b4231541c22990nat;
    let v1: nat = 0xc551f32bf9fb5e2_06f74fe2a5706aff_76243a627419d6ad_0b81ba757e1feb2cnat;
    lemma_power_doubles(b, 8514, n, v0, 0x1d16fa80d127065_4ddbb7c9cfb9ba6e_9908ae38a633ccaf_2b1ca388a6df85d4nat, v1);
    let v2: nat = 0x38429177fed0498_5c5df52eb8783e8b_f0df2810bdc754d9_5c568a250d89f9e2nat;
    lemma_power_doubles(b, 17028, n, v1, 0x8257f5dfc9c5094_d733af9aa88a9512_37dea49c944cf2f2_6fa8cb8d0f27d5aenat, v2);
    let v3: nat = 0x10d141775e0bf469_613d601ed7a6f509_350921ed3d03df69_e51dfdabfe23ae46nat;
    lemma_power_doubles(b, 34056, n, v2, 0xa989b67f30292f_016dd5c9c8697a92_f77a24fcf0988841_3efe33665da9bd3enat, v3);
    let v4: nat = 0xf431a3ca3b6bba5_2de48965b036feb0_e7221579ce553305_f1474cc7d710f9f1nat;
    lemma_power_steps(b, 68112, n, v3, 19, v4);
    let v5: nat = 0x91889c3f2509a4d_1d316228a371413d_df29ea27ac2340bc_3591da637f91704fnat;
    lemma_power_doubles(b, 68113, n, v4, 0xc7a032a7b5d95eb_2334a615725fab74_470a3bd5c6a5aaee_719a573d80954492nat, v5);
    let v6: nat = 0xd69e124cd2ecd40_bb336c4e718ebb43_acf17974ab079022_35d9c48cf67fa6c0nat;
    lemma_power_steps(b, 136226, n, v5, 10, v6);
    let v7: nat = 0x8ec66b0c8a42884_21e13055a51df352_7dd91e2f1fd29bb5_645172b14d8810c3nat;
    lemma_power_doubles(b, 136227, n, v6, 0x9a3289e5ca5f121_6b68fa8d2076c5d5_c06ecf3090cc4be3_38d1036e91957f3dnat, v7);
    let v8: nat = 0x12608847182b72f3_55e01a88ffa143ee_8e5a91b26858036c_9586649be637aedcnat;
    lemma_power_doubles(b, 272454, n, v7, 0x443df3a12dc5c74_149fff61b52a8872_80bbe54735f04bc9_d51c1771381145adnat, v8);
    let v9: nat = 0xe1640f73b1481c4_ad2c21f8ad21c630_41c17f508e795235_06817cb8f7e172acnat;
    lemma_power_doubles(b, 544908, n, v8, 0x1216d76275351e35_9025fdb2c47a8c3c_7b635461a91e979b_210a3bfef2165a64nat, v9);
    let v10: nat = 0x8876d5c0d94814e_3ffffa2c342c951d_001024c981de7bd7_7a0cfd5b8b19d365nat;
    lemma_power_doubles(b, 0x10a118nat, n, v9, 0xaa111aa9bf50038_ae8b472f50bd3436_2343af50395a83ca_698acbb7229bd02bnat, v10);
    let v11: nat = 0x86ab173ea4e9d2d_c13a016cd012a0c9_c228bb10b656bbaf_a29b52a2a8041d9cnat;
    lemma_power_doubles(b, 0x214230nat, n, v10, 0x3e57b01e7027109_d3f1f45dbbc91c88_2e9d2ea48eabfe3b_7c782755fe45883dnat, v11);
    let v12: nat = 0x127c949033dd5d3a_1e4557844ea65eb5_72fa9302db44c32f_9c55131a5598415bnat;
    lemma_power_doubles(b, 0x428460nat, n, v11, 0x3cb66432344ab66_7b665cb971e0f725_6fca64075e5cafe5_47263d435ab475b5nat, v12);
    let v13: nat = 0xaa6222fff264054_375887931a3325ed_e0f56da05fa369e3_bf0b72a478b4771fnat;
    lemma_power_doubles(b, 0x8508c0nat, n, v12, 0x124e3926e2a3074f_9b5f7a86db0b6a24_9df42585909daa02_222acbcba20adf3anat, v13);
    let v14: nat = 0x113819e63ed88b67_7b0b59f733041220_61787837cafe626e_bdddc02cfa6a2cfdnat;
    lemma_power_doubles(b, 0x10a1180nat, n, v13, 0x612f79c2c485738_f4dc591ab8166e11_d2a102e5266e5af9_a9a02a6fd09ba8c4nat, v14);
    let v15: nat = 0xdc57850a5880d32_26c9cc84ee2238b0_48706c51135aa515_fd13c02388c496b0nat;
    lemma_power_doubles(b, 0x2142300nat, n, v14, 0xfe1a6a6844ae2fb_3a3e49d0b862a81f_c51da5d920a05340_561742bbe4a75b59nat, v15);
    let v16: nat = 0x90919d05dc2ddf6_0a4c3278a77d4a0a_b6756995d2e01e0b_0278c5dda2fab45dnat;
    lemma_power_doubles(b, 0x4284600nat, n, v15, 0xa28866492313194_f3cad2294e6a4865_87825d25d03196cb_1d5d6554733804a3nat, v16);
}

/// Part 3 of `lemma_modulus_root`.
proof fn lemma_modulus_root_part_3()
    ensures
        power(22, 0x8508c000000nat, 0x12ab655e9a2ca556_60b44d1e5c37b001_59aa76fed0000001_0a11800000000001nat) == 0x11ec076ef4a79e94_4d64140963d47d2f_3568786c3046b1a7_b9cc7f1b03ab58e0nat,
{
    let b: nat = 22;
    let n: nat = 0x12ab655e9a2ca556_60b44d1e5c37b001_59aa76fed0000001_0a11800000000001nat;
    lemma_modulus_root_part_2();
    let v0: nat = 0x90919d05dc2ddf6_0a4c3278a77d4a0a_b6756995d2e01e0b_0278c5dda2fab45dnat;
    let v1: nat = 0x8f68b338f7b5b98_3dd462985ded5b11_a343419541562560_9ee13bb6307d44banat;
    lemma_power_doubles(b, 0x8508c00nat, n, v0, 0x45f7abbd8f6c37c_70209156d01249f0_e11f8c89ae14e3be_33fd10a64839a50fnat, v1);
    let v2: nat = 0x2b105d0b2e3898b_3f1271d727af6ad0_1c04f6500283399a_d287e17b79bb104bnat;
    lemma_power_doubles(b, 0x10a11800nat, n, v1, 0x44d96d699cb37dd_1a00d1d3295262db_a7bbf98c33567603_fb914a0e765c46d9nat, v2);
    let v3: nat = 0x29317cf72584a9e_6aa13ce2d40a01ed_dca4fdc14b70b52d_87c834e9c2f4f0b5nat;
    lemma_power_doubles(b, 0x21423000nat, n, v2, 0x635547334ab8e3_6113cea7fab47f4d_d5f780b4da37d142_f573a73ff1a68544nat, v3);
    let v4: nat = 0x112de503779011a8_2964e4c8a2dc4ebc_513a4aa3b41afe11_273592cb591bd0a3nat;
    lemma_power_doubles(b, 0x42846000nat, n, v3, 0x5ae411ed783333_d97bdf7af47898db_954911e5a69b4f7f_695945dcb6400f56nat, v4);
    let v5: nat = 0xb535980f01f2aba_8c6d07f8dd3ee15a_ce18f2c6dec38c07_e39b25d73335c315nat;
    lemma_power_doubles(b, 0x8508c000nat, n, v4, 0xfced86e4d414ca7_715c38ca920c79db_50c9cd4c020649d2_bab002c1cf3584b4nat, v5);
    let v6: nat = 0x9a30f86c30b2fdb_2c7038bb75e147ee_fe7ad0d05494d7f0_c37717eaff19389bnat;
    lemma_power_doubles(b, 0x10a118000nat, n, v5, 0x6ded8effb7be9bf_373129a43b114fec_209e769075a67b97_065a1e5fba41c71enat, v6);
    let v7: nat = 0x8e7ec93af07912c_cb712631e92f43b6_3fae37fb9c90ab55_1b481a6d4b166efcnat;
    lemma_power_doubles(b, 0x214230000nat, n, v6, 0x4f976c255710489_56b42aec34333002_e8d315e93765b26c_5930fc2f99b3beddnat, v7);
    let v8: nat = 0x1090e75dbf790440_0ceabc4269cdccee_12c8969f13d18bb2_e6579abce443efdcnat;
    lemma_power_doubles(b, 0x428460000nat, n, v7, 0x43f98b012e12546_d3cdc8af1f0eb40d_cbb6df90938b7418_55863eda07299834nat, v8);
    let v9: nat = 0xe6ffe926bf9995c_b3fca4f586a9a4df_71f3b33c91f67127_0a92ef39884079f4nat;
    lemma_power_doubles(b, 0x8508c0000nat, n, v8, 0xeb3154e49dc9f64_c62ce09f60165946_52de2b24d04b95b5_3e71212dc5a40b1cnat, v9);
    let v10: nat = 0x3bc45e77ce631c3_80094243a9bc51cf_e429a9b894581e3d_1c3b0598eea05eafnat;
    lemma_power_doubles(b, 0x10a1180000nat, n, v9, 0xb2a2e1f26b0bcba_fb03716a9f37f328_49e354f8b4c0daf8_3423f2df857831e1nat, v10);
    let v11: nat = 0x11f45a5869b46be7_dec4f5daf63ab0b2_d9db5ccb5380415e_b3b71fecf79a5976nat;
    lemma_power_doubles(b, 0x2142300000nat, n, v10, 0xbf555af0328446_b43b7fdc2e18afc0_521c976696e4faec_f5943a66ea2aa22bnat, v11);
    let v12: nat = 0xfcb112d22382f8d_4d48e82dc17ced98_a775a0b922eb9579_ea1de5fc32053e93nat;
    lemma_power_doubles(b, 0x4284600000nat, n, v11, 0x114451f1fff34171_c933396c90ccb8af_a47cca5afcd0e81d_69875545433603d1nat, v12);
    let v13: nat = 0xeeaa434968daa0_2e9444d4ff4f3bb4_8e39e9b7577ec1ca_9ed544c69cc62ddbnat;
    lemma_power_doubles(b, 0x8508c00000nat, n, v12, 0xd5c2deb781de742_0fca82115e3d1b8d_170cdf8a0a511ffd_f3cff72e50435a8enat, v13);
    let v14: nat = 0x9dec0416ff12b46_aeed661a05e9290c_3c9d190feeb5003b_2e9c6cb8f23b7cd9nat;
    lemma_power_doubles(b, 0x10a11800000nat, n, v13, 0xbeb0490b8b267_41ae5a1b5269d377_edb7036c62b04f33_fbfefb58ecbf3c80nat, v14);
    let v15: nat = 0x7579383c1369fab_daff3fba2473fa6f_a76e8df2837b34e3_227c273257d0d7d2nat;
    lemma_power_doubles(b, 0x21423000000nat, n, v14, 0x537d505255078ae_efafd206ca2f877e_8d640cb2d1ad184a_71ec6e9ab518181fnat, v15);
    let v16: nat = 0x11ec076ef4a79e94_4d64140963d47d2f_3568786c3046b1a7_b9cc7f1b03ab58e0nat;
    lemma_power_doubles(b, 0x42846000000nat, n, v15, 0x2e32ca0ab331e2b_a0b0a754f98fec4a_71c0db1e2ef20557_b9c367fd23870f64nat, v16);
}

/// Part 4 of `lemma_modulus_root`.
proof fn lemma_modulus_root_part_4()
    ensures
        power(22, 0x8508c0000000000nat, 0x12ab655e9a2ca556_60b44d1e5c37b001_59aa76fed0000001_0a11800000000001nat) == 0xdf248343dd4d653_3e60454388b95515_d34c8141deab1e61_94e2e3c940067aefnat,
{
    let b: nat = 22;
    let n: nat = 0x12ab655e9a2ca556_60b44d1e5c37b001_59aa76fed0000001_0a11800000000001nat;
    lemma_modulus_root_part_3();
    let v0: nat = 0x11ec076ef4a79e94_4d64140963d47d2f_3568786c3046b1a7_b9cc7f1b03ab58e0nat;
    let v1: nat = 0xeed1586bcdabbf3_818ba0e8d19e4f2b_41ef2c4af735583b_d1f98bb51e0bc495nat;
    lemma_power_doubles(b, 0x8508c000000nat, n, v0, 0x1134530db5d20677_a10f9ddd51eebab1_c5e2322eead65b9f_b7966a4ffc0eff6bnat, v1);
    let v2: nat = 0x1019ec7e5ef2c703_848d454bfcdd908d_9e968c8645a7906b_946021ebe025062fnat;
    lemma_power_doubles(b, 0x10a118000000nat, n, v1, 0xbeeec1f6231c8db_6cf6dbb0605b50dd_c5731d7c2507f063_45af6963879d788anat, v2);
    let v3: nat = 0x7d814ce065e0a23_0a9069e8e346a042_7d60a3f80c050df4_f986740b8a5b743anat;
    lemma_power_doubles(b, 0x214230000000nat, n, v2, 0xde2e56317906c78_a2f3a8bbbc8749e1_52fc5df3ea12cc06_1c81546b7f60c867nat, v3);
    let v4: nat = 0x66a1e380b6dc690_27c02bc968891825_825d597609cedce1_8fcc00ffbbb11535nat;
    lemma_power_doubles(b, 0x428460000000nat, n, v3, 0x34bb3f323d0dfa9_5fb1e1c8e1ad72bf_598da5a51f6b0fbe_e00cc5f6a24f87efnat, v4);
    let v5: nat = 0x5e638ceee98c11b_ebd3b22a4bb0421f_c0c7e65303cf06d8_caec8d579947f168nat;
    lemma_power_doubles(b, 0x8508c0000000nat, n, v4, 0x2343414dcf2b1b1_2f086b6d37332758_b913fa5792ff034c_978661b829c3cb91nat, v5);
    let v6: nat = 0x10eafd28cb918e21_2f4faa60c919c425_1346046f4aecc06b_5ed2a6b52855c1eenat;
    lemma_power_doubles(b, 0x10a1180000000nat, n, v5, 0x1dd35794b432d47_829682572dac040f_33426b7c77bf748d_15ec10c0f2ff3852nat, v6);
    let v7: nat = 0x58fa6428caee733_ea8f17f1ec17ff42_7626058e18e6245c_b690e6ebd63d8335nat;
    lemma_power_doubles(b, 0x2142300000000nat, n, v6, 0xf54a6da9189d783_949b1e9d3a44e353_67bce688d37f8f83_bb0064f4e4b7360fnat, v7);
    let v8: nat = 0xc98a6cedd5aa5ac_d881364c375caf9c_d76a7161319f759f_fb5c979b63275273nat;
    lemma_power_doubles(b, 0x4284600000000nat, n, v7, 0x1a810cfde4b969e_2ec024baed9a81d8_17b2b6af6d48a5a6_f6176dd70359f686nat, v8);
    let v9: nat = 0xb1fc011ead67577_c89efdda987457b4_d58fc5fcc895c48f_460563ae77e12864nat;
    lemma_power_doubles(b, 0x8508c00000000nat, n, v8, 0x87faaf49ffdde08_440378ff53da3244_66c9766b4165ae19_e0b40d62b3b6b745nat, v9);
    let v10: nat = 0xe7b599b53f269c_31aad9dcb9c642ec_b823811f0ab5f87e_e69eeca0a1e728a5nat;
    lemma_power_doubles(b, 0x10a11800000000nat, n, v9, 0x6a0ccef7caea46e_985378248f6c5076_f86e62aa78cf707b_3e6bece45c403e6bnat, v10);
    let v11: nat = 0x7e68402d8b8d833_6a73f76d4ad58a55_e613d5fcb49625be_af062a05c1d98887nat;
    lemma_power_doubles(b, 0x21423000000000nat, n, v10, 0xb3bc527b5d6f3_1fa285ee341cf43e_074346b4629e597c_f7126e14286071d2nat, v11);
    let v12: nat = 0x8364294662ad556_0f38c87c5e7efe70_9947eba477b16f45_c551bc7720e5cfcenat;
    lemma_power_doubles(b, 0x42846000000000nat, n, v11, 0x357e03835618724_5612b5af0a8da2fe_24faa4689e277e9e_89d31d832ac7e763nat, v12);
    let v13: nat = 0x44ecdb7bac63ca5_baddc684a2a0decc_584cba42ddb011f6_c1b36c5b69938729nat;
    lemma_power_doubles(b, 0x8508c000000000nat, n, v12, 0x39cb2a9b54865f8_e51d88710e40eedf_08303795ff6fdbf2_d228176985a7429bnat, v13);
    let v14: nat = 0x1037a5a8b5ca96be_118cef497bf63b92_11d0fd0146c15098_802bb10f0d35ecf4nat;
    lemma_power_doubles(b, 0x10a118000000000nat, n, v13, 0xfe76548cf9b42a_e053804e80d532ea_3a84e9d9ae42955d_ea65d7fb153c579dnat, v14);
    let v15: nat = 0x18da38ff5968959_d908789b9770aec7_b38a9e43ac79b9bf_e7123adbe75e5539nat;
    lemma_power_doubles(b, 0x214230000000000nat, n, v14, 0xe16598c19c820eb_4cb140dd27e30729_23982eda6b89311e_891cf728d8fc7357nat, v15);
    let v16: nat = 0xdf248343dd4d653_3e60454388b95515_d34c8141deab1e61_94e2e3c940067aefnat;
    lemma_power_doubles(b, 0x428460000000000nat, n, v15, 0x21153ecd6c78a1_f911b76452513e78_f80f892d6e99a3ec_be7d204c50346bc2nat, v16);
}

/// Part 5 of `lemma_modulus_root`.
proof fn lemma_modulus_root_part_5()
    ensures
        power(22, 0x428_4600000000000800nat, 0x12ab655e9a2ca556_60b44d1e5c37b001_59aa76fed0000001_0a11800000000001nat) == 0x5c9c92c77899cb_705d3dd852e4f421_d304081372c833b3_005a448e87dee291nat,
{
    let b: nat = 22;
    let n: nat = 0x12ab655e9a2ca556_60b44d1e5c37b001_59aa76fed0000001_0a11800000000001nat;
    lemma_modulus_root_part_4();
    let v0: nat = 0xdf248343dd4d653_3e60454388b95515_d34c8141deab1e61_94e2e3c940067aefnat;
    let v1: nat = 0x11ecaf12537f25c3_45b3caf27c7716ea_26c833361361f5f4_b8bae563672e16c2nat;
    lemma_power_doubles(b, 0x8508c0000000000nat, n, v0, 0xa6b0e2f6b800878_042d02fe4b01c900_2daffe61aca38cd5_eaf6bd8c170e945fnat, v1);
    let v2: nat = 0x73a534c79541cb7_e601ce359c636f02_61eb6b227732da94_91dfa017e8c37c63nat;
    lemma_power_doubles(b, 0x10a1180000000000nat, n, v1, 0x113594edab6d7f57_1b8f44915633ff23_fd84d2af5ed40d0a_f1f9ac9062fa6ea1nat, v2);
    let v3: nat = 0x120202ed17a02a9a_705d921af3757ebc_76e5a74cba975c26_e6b0e79f2f440832nat;
    lemma_power_doubles(b, 0x2142300000000000nat, n, v2, 0x2cc58ba738784bc_947f3de6a8b48755_b4362f98c9eac2ca_a57598e4fbfe0617nat, v3);
    let v4: nat = 0x596349c4cb542f4_f4b347d0762e1cb7_19c58c52eb6094de_802803779b31f5danat;
    lemma_power_doubles(b, 0x4284600000000000nat, n, v3, 0x115ea145cf8f9584_c7ec39b2321ab7f1_ca2b1f72b711cd10_f21f73bb1ba133eanat, v4);
    let v5: nat = 0xae42536fa87e106_c32e5d33fea857b4_1cfb45275a4ccb18_c7074c47564b20b6nat;
    lemma_power_steps(b, 0x8508c00000000000nat, n, v4, 6, v5);
    let v6: nat = 0x454936423b90d11_8231d691a8d2aa07_8d3e603b4c706a2b_091f9aaa198123a7nat;
    lemma_power_doubles(b, 0x8508c00000000001nat, n, v5, 0x65a83976eae5970_9d9eafa1c2d11b2b_cabf76d660ebe89b_c097aa505d50ddbdnat, v6);
    let v7: nat = 0x52693c48e25991e_67cf2b7cb74bed7b_6f931314c1b030a0_d06eeca59568748bnat;
    lemma_power_doubles(b, 0x1_0a11800000000002nat, n, v6, 0x1012209032f93a5_e975bda2eb613bce_39f64428031076a3_bafcd341fbdca266nat, v7);
    let v8: nat = 0x24b18e17f3d8e8_3a8fbaeb836e2cfa_1b061bbec1c54581_b44434f0509c4c9dnat;
    lemma_power_doubles(b, 0x2_1423000000000004nat, n, v7, 0x16bc787d9a5d990_6c192463537ba0cf_1f205c2c4904cc43_e1df10866361f6dcnat, v8);
    let v9: nat = 0x4107f99192b971f_7baa3a5fc7efcb35_65e9e6241abb573a_440fe2f1ff446036nat;
    lemma_power_doubles(b, 0x4_2846000000000008nat, n, v8, 0x481e5958965f_eb5780b5b54e4647_6a5e82ce60d48b42_e19d1abd97013813nat, v9);
    let v10: nat = 0x644ad9505876bec_5eb5725bbc2b1b88_1d0732860d0a89cb_ecf415820a2e96b4nat;
    lemma_power_doubles(b, 0x8_508c000000000010nat, n, v9, 0xe2858f3f176dba_2a7756c1e9a216f4_17210eba201bb866_467db218caa9f4b0nat, v10);
    let v11: nat = 0x43d4e946c8f2714_883bf1485234ed1b_7ada15ca07a5be68_66f054c999ad61a5nat;
    lemma_power_doubles(b, 0x10_a118000000000020nat, n, v10, 0x21ac4ee9bba3db4_039e332f8e9aed5e_f8d08aeb16d090d0_ac916e46f7ba0cebnat, v11);
    let v12: nat = 0xada5d50044c822d_a57acaf59a196ecf_1d8832e1a3b07306_f62fd3c34842735dnat;
    lemma_power_doubles(b, 0x21_4230000000000040nat, n, v11, 0xf673af31deaf4e_15444e6aab2ca5aa_bf673e7f04d584a9_288e7d7b0ffe00fcnat, v12);
    let v13: nat = 0x158c57b1c85ff1f_cb04e110fd1f799d_5b70a22ff93ac943_07bfd1ef36f28ed0nat;
    lemma_power_doubles(b, 0x42_8460000000000080nat, n, v12, 0x64f1f52ffa814fe_9a7e762de91c38f6_5bf31f72534f1da8_c92d2de2c8fe20f9nat, v13);
    let v14: nat = 0xf7adf6bb3464a47_fe5b1f3c6aabcc02_8c7b04f003e2177a_a24f8c9e8ce1aa7anat;
    lemma_power_doubles(b, 0x85_08c0000000000100nat, n, v13, 0x18deebb37b1156_a4b3cfc6846b0396_89b15073888d5bc3_c7c8f5d38409be86nat, v14);
    let v15: nat = 0x1003af62d1a12e87_135fa382085f98eb_fbac7589f66fb9b1_e82eb3a565dc1647nat;
    lemma_power_doubles(b, 0x10a_1180000000000200nat, n, v14, 0xcd5d8a3b2e93fa9_b7e7093562d5e439_7cff37f344a99545_1c0d4455261e2bddnat, v15);
    let v16: nat = 0x5c9c92c77899cb_705d3dd852e4f421_d304081372c833b3_005a448e87dee291nat;
    lemma_power_doubles(b, 0x214_2300000000000400nat, n, v15, 0xdbca3fe6a976e84_f3c05de65c0d1145_4d2ef776cdb5bf72_44dd23c1ca196520nat, v16);
}

/// Part 6 of `lemma_modulus_root`.
proof fn lemma_modulus_root_part_6()
    ensures
        power(22, 0x4284600_0000000008000000nat, 0x12ab655e9a2ca556_60b44d1e5c37b001_59aa76fed0000001_0a11800000000001nat) == 0xfa2f002dbb917d8_e5f6df570a2fa2fd_77475c5d8ce5dde6_22ffdf341fcc645anat,
{
    let b: nat = 22;
    let n: nat = 0x12ab655e9a2ca556_60b44d1e5c37b001_59aa76fed0000001_0a11800000000001nat;
    lemma_modulus_root_part_5();
    let v0: nat = 0x5c9c92c77899cb_705d3dd852e4f421_d304081372c833b3_005a448e87dee291nat;
    let v1: nat = 0x1209f4754f0fb66e_e446b60291cae594_b8498a900d0ccf9f_ce5f36f5203695e5nat;
    lemma_power_doubles(b, 0x428_4600000000000800nat, n, v0, 0x1cb6842e39663_a11d98cf49bcd4dc_2f30655ed9ead05d_ef37fee989c9c03cnat, v1);
    let v2: nat = 0xe4b920f91a9f6ab_351914fec258e1a9_2eb410dc2147fffb_770281f919e7f427nat;
    lemma_power_doubles(b, 0x850_8c00000000001000nat, n, v1, 0x116df793dc39be5e_e03b13f60b010dbe_a53ed09915ab406f_c98db375ba786ab2nat, v2);
    let v3: nat = 0xc1d7855d2272b7a_41df3e6d198d513e_0609da94013cad5b_e61c1c9da0bc952fnat;
    lemma_power_doubles(b, 0x10a1_1800000000002000nat, n, v2, 0xaf21f8db5d7e3b9_6e2bedc1205072f8_b915269e589dfee3_8b24451a847fc8c2nat, v3);
    let v4: nat = 0xb780537eb290e4b_449ef4015800c743_bd0daa0615130bd5_7667e742d2488239nat;
    lemma_power_doubles(b, 0x2142_3000000000004000nat, n, v3, 0x7dc9f2e4a91ae53_f638baa7c8d203b8_b6b195c6926528de_bba1a1c961af3c68nat, v4);
    let v5: nat = 0xc1ac5e000729bd7_e7ac60534a591208_e2312f6a504e9491_eb3fe786b7562845nat;
    lemma_power_doubles(b, 0x4284_6000000000008000nat, n, v4, 0x70b9ecd4d6396ca_e8278b748d55ecbb_f1f0ce1d64a5df6c_f45d260c4ef7c86cnat, v5);
    let v6: nat = 0xdfe1d17a4a0d9bd_ffdb3a42d6920222_e197ac4fac27bb5b_ffea4e0227c7854dnat;
    lemma_power_doubles(b, 0x8508_c000000000010000nat, n, v5, 0x7d91f74dd6147ad_db5dad3786f3ddbb_82b6cedd72c6ad74_7584aacb92ea1d4cnat, v6);
    let v7: nat = 0x9d5fc5718abbaea_9626e549ecf9f6dc_e65359ce12dee25c_41169a17cf537b1cnat;
    lemma_power_doubles(b, 0x10a11_8000000000020000nat, n, v6, 0xa7cc2ef7151fea0_6b8382fbf866d3ae_c01bb804ff3c774e_40514d3a29cb9e0dnat, v7);
    let v8: nat = 0xdcb6f495dca1469_04232e058089a31a_e5886572dbe322cd_605d373bf81b4d72nat;
    lemma_power_doubles(b, 0x21423_0000000000040000nat, n, v7, 0x52e948720f0e217_ad22d31067d8d5d6_ab7c9fab4741d126_672bb41c5f409d9enat, v8);
    let v9: nat = 0x9034d6f5c6798b_7703c6559676c3d3_7b4e871a13b9e2fb_9a66257f7947bbb1nat;
    lemma_power_doubles(b, 0x42846_0000000000080000nat, n, v8, 0xa315501bd3bf6fe_4f908cb2e26b5799_7dd179bf28a27d3e_b2f2f202d4320b13nat, v9);
    let v10: nat = 0x502d3099e2f0ce2_2c70ead31d272f72_2cfcaabbd356db52_c56fb779f4a82f5fnat;
    lemma_power_doubles(b, 0x8508c_0000000000100000nat, n, v9, 0x459dfbc0e8a9c_0bb6d858848dc03f_07d6f7a3d414d6a9_14db8fab0321e102nat, v10);
    let v11: nat = 0x311c023c3c156ab_57a8cc08d7eed5fa_7e282b0402e9d835_17ef0d2d01efd264nat;
    lemma_power_doubles(b, 0x10a118_0000000000200000nat, n, v10, 0x15851beb0db454a_55adc5aa2c1c98c7_12d2d79b2c231ce6_badf156c4b8432ddnat, v11);
    let v12: nat = 0xecf8d1d35989e57_489de44b3a318f0e_f357a47809388329_956e843d8dda8935nat;
    lemma_power_doubles(b, 0x214230_0000000000400000nat, n, v11, 0x812e29b52a62ab_3917dd0face2d85d_66c95db5c693ca4a_5282db39bdc5addbnat, v12);
    let v13: nat = 0xc5d23cced38932f_c01d8a856a5bf470_033109eed96336d6_f52043e48cb8fcbanat;
    lemma_power_doubles(b, 0x428460_0000000000800000nat, n, v12, 0xbbfe1e076182954_51461d71eb954f7d_132320a088e2b1c1_c65bbd0fcd14c83fnat, v13);
    let v14: nat = 0xd44bdb2e649e6e6_0ea7c78a7fadc3ce_b471e8b3e8485ff0_61a034394c6eea82nat;
    lemma_power_doubles(b, 0x8508c0_0000000001000000nat, n, v13, 0x8301a9514f7482f_3fa9bfb6d172f485_8cc9a49744c70071_caf32d2e686fcca2nat, v14);
    let v15: nat = 0xc015ff826f7f390_b6a9f9859d9da9f6_176de9b46a6fb2b2_3ed961881294b6d8nat;
    lemma_power_doubles(b, 0x10a1180_0000000002000000nat, n, v14, 0x96e14c306378f81_c2befbe8b5024f13_288036276227a8da_df9fe7a77bf5332cnat, v15);
    let v16: nat = 0xfa2f002dbb917d8_e5f6df570a2fa2fd_77475c5d8ce5dde6_22ffdf341fcc645anat;
    lemma_power_doubles(b, 0x2142300_0000000004000000nat, n, v15, 0x7b852d8c3b59731_7c8e504d8bc641e6_4dc9e22afc0fc5af_a3e256662c8b71e6nat, v16);
}

/// Part 7 of `lemma_modulus_root`.
proof fn lemma_modulus_root_part_7()
    ensures
        power(22, 0x42846000000_0000080000000000nat, 0x12ab655e9a2ca556_60b44d1e5c37b001_59aa76fed0000001_0a11800000000001nat) == 0xc1cd903fda2ba0_19c2337c13c510d7_2e5380428f6d5f87_f1368c984298a562nat,
{
    let b: nat = 22;
    let n: nat = 0x12ab655e9a2ca556_60b44d1e5c37b001_59aa76fed0000001_0a11800000000001nat;
    lemma_modulus_root_part_6();
    let v0: nat = 0xfa2f002dbb917d8_e5f6df570a2fa2fd_77475c5d8ce5dde6_22ffdf341fcc645anat;
    let v1: nat = 0xa1df2939627fdbe_f76fec97595a2d65_83524808c724546a_61159913e6110d64nat;
    lemma_power_doubles(b, 0x4284600_0000000008000000nat, n, v0, 0xd189f478bc69543_6b6af4b7179885d0_f632219966a1a0ab_c0a71af9fcb56240nat, v1);
    let v2: nat = 0x11d949466ef1f9e3_56c84df5dd0fd9c8_e896bde360634567_a8352944391fc280nat;
    lemma_power_doubles(b, 0x8508c00_0000000010000000nat, n, v1, 0x57b7d1d68dee06f_21e39ec56be771fd_6c8fc47594ed7ad6_eda700c63edb8c90nat, v2);
    let v3: nat = 0x7ddd245fafd03bb_a3d4c7d2cd689bc3_952b28c9d48a6082_832e5f78790e43c9nat;
    lemma_power_doubles(b, 0x10a11800_0000000020000000nat, n, v2, 0x111069ca2b1f68a2_b252f61c3707d139_74874932e1f90d41_b3fa9d1535b7fc37nat, v3);
    let v4: nat = 0xde936fa7a5e6d2e_c08c5ff158c0a403_27b707b76a5cdc8c_bbff7a22410630cfnat;
    lemma_power_doubles(b, 0x21423000_0000000040000000nat, n, v3, 0x3508885291b5be6_693680a19adf7fcf_1c8e379d6694155a_6a86bd2d3ce8a302nat, v4);
    let v5: nat = 0x44b0839f3afe17_da3de9359700ca7d_90311a3d8e61c4d9_9250640449c760f1nat;
    lemma_power_doubles(b, 0x42846000_0000000080000000nat, n, v4, 0xa5d869b51b37cc7_d682d8090d72ebe5_6ff23121d78043ca_301803e7273ae670nat, v5);
    let v6: nat = 0xc34c65d64149c99_7130e4ee2293fd7f_5f1f8e5db3b6abe8_ced16c7d981c6ebcnat;
    lemma_power_doubles(b, 0x8508c000_0000000100000000nat, n, v5, 0xfcb988ee9f6f_8d73ce603c6c8e66_1526b21f6bc6b502_5081b39bb5473425nat, v6);
    let v7: nat = 0x92ddd13416c568f_7cffa6116c95db18_c859ee42f2fb4a39_55e278949e2768b2nat;
    lemma_power_doubles(b, 0x10a118000_0000000200000000nat, n, v6, 0x7fafb48d91972ee_5537db9c6f65ae45_edffd3babd2a469b_20bd11ab0adeb15enat, v7);
    let v8: nat = 0x8d76b55a08539b6_b9ffcf745a34aef3_373b06281c03be34_1c888017d01e67denat;
    lemma_power_doubles(b, 0x214230000_0000000400000000nat, n, v7, 0x48358b9d819e283_a6b1e55bad5cbc71_5f5256e47ed5d178_daf31904f8eeb3e6nat, v8);
    let v9: nat = 0x51075dc684dc40d_f0478d084094c046_336a1894840ecd90_5320d3c9dda27fdfnat;
    lemma_power_doubles(b, 0x428460000_0000000800000000nat, n, v8, 0x42fe820e647ecdd_b1bb70559084a3a9_e4a63a347e6bdefb_7bfdc27f6489e4a5nat, v9);
    let v10: nat = 0x25d02152615a30b_63994d374c56360c_fb9b303dcc242d07_fb61bd23ec74da16nat;
    lemma_power_doubles(b, 0x8508c0000_0000001000000000nat, n, v9, 0x15fada0fe678ed6_50b7f15ecbe115f0_a6d135df3ed7943d_ae4620f72fa62a2bnat, v10);
    let v11: nat = 0x5554ab2d9969469_c4356d36ad2ac268_084013a970aa054f_b35e05fb9f09ec44nat;
    lemma_power_doubles(b, 0x10a1180000_0000002000000000nat, n, v10, 0x4c96046b35c966_c66583824cdd17c1_94395d13bccfbe1f_533dbf774eaf8da0nat, v11);
    let v12: nat = 0x59c473fbd775391_72afa9214c9bc7cf_b8156da15c6fcc13_ca9452ac6ea5562dnat;
    lemma_power_doubles(b, 0x2142300000_0000004000000000nat, n, v11, 0x1860310f767ce29_79d31274e694c31b_3c7eb0e44ae564d8_acd4768a80301be3nat, v12);
    let v13: nat = 0xc00306b71f006f5_87a625aaebd7c7ba_0e1c1e87b8b59f6f_5cf2c2a60ab3cffcnat;
    lemma_power_doubles(b, 0x4284600000_0000008000000000nat, n, v12, 0x1af9f63e0e22b18_0230b3c7ce9efd41_c1185d5be3bc8d7b_e594dea8d45073ednat, v13);
    let v14: nat = 0x432d693662cd8d4_c42071ca6b7ba8b3_724f89fd6cb25b1b_74100bbf9b37e61bnat;
    lemma_power_doubles(b, 0x8508c00000_0000010000000000nat, n, v13, 0x7b6cc8762c96135_f8c738f08d627384_3b4e769b213cf5f8_b4fea99c982999f5nat, v14);
    let v15: nat = 0x756b44e5de268a4_34e0c510ad5b0d77_4099c436f470beab_92ba6ccbb99a11a6nat;
    lemma_power_doubles(b, 0x10a11800000_0000020000000000nat, n, v14, 0xf1b866eed08871_b7a2430403774eb9_af1bfd92c34e69fe_70f57e57a6d47533nat, v15);
    let v16: nat = 0xc1cd903fda2ba0_19c2337c13c510d7_2e5380428f6d5f87_f1368c984298a562nat;
    lemma_power_doubles(b, 0x21423000000_0000040000000000nat, n, v15, 0x2e27d1b8212ee18_ce900152b2f4f24a_1d63240093b39d90_f84a8ae6e656d242nat, v16);
}

/// Modulo the field order: 22 to the power `2^46 * x`, where `x` is
/// 9586122913090633729.
proof fn lemma_modulus_root()
    ensures
        power(22, 0x214230000000_0000400000000000nat, 0x12ab655e9a2ca556_60b44d1e5c37b001_59aa76fed0000001_0a11800000000001nat) == 0x17a09f02f70064e_e78e2edff8bd7f3f_a1d66e7dc0531396_4256f4dc41db4d2anat,
{
    let b: nat = 22;
    let n: nat = 0x12ab655e9a2ca556_60b44d1e5c37b001_59aa76fed0000001_0a11800000000001nat;
    lemma_modulus_root_part_7();
    let v0: nat = 0xc1cd903fda2ba0_19c2337c13c510d7_2e5380428f6d5f87_f1368c984298a562nat;
    let v1: nat = 0xf8c2d9e0bf20f94_e6dac0704bf3e5a4_6a58178fde22c1f5_24905061c540d8dbnat;
    lemma_power_doubles(b, 0x42846000000_0000080000000000nat, n, v0, 0x7dbd06db4196b_273cbc88ad306360_f606b7ea01330d49_aab4d44991f6a0a9nat, v1);
    let v2: nat = 0x1249205fe21d4d25_c10bc5876eeadaa1_bfec5147bf1e9a06_a745ec7f28e205cenat;
    lemma_power_doubles(b, 0x8508c000000_0000100000000000nat, n, v1, 0xcf29b57eaa68a88_b68341f1a97078a9_145b9a40a85c78f9_52c3a7a50a50458bnat, v2);
    let v3: nat = 0x17a09f02f70064e_e78e2edff8bd7f3f_a1d66e7dc0531396_4256f4dc41db4d2anat;
    lemma_power_doubles(b, 0x10a118000000_0000200000000000nat, n, v2, 0x11e8e0a26611a4d8_b9a969bab9f58ca1_b8b71a50a17ce89a_0fab06e65dfe649anat, v3);
}

/// Part 1 of `lemma_modulus_root_x`.
proof fn lemma_modulus_root_x_part_1()
    ensures
        power(0x17a09f02f70064e_e78e2edff8bd7f3f_a1d66e7dc0531396_4256f4dc41db4d2anat, 8514, 0x12ab655e9a2ca556_60b44d1e5c37b001_59aa76fed0000001_0a11800000000001nat) == 0xb68002fa12254_47975c49866f5007_19726845f1ff6151_125167cc39e3b4banat,
{
    let b: nat = 0x17a09f02f70064e_e78e2edff8bd7f3f_a1d66e7dc0531396_4256f4dc41db4d2anat;
    let n: nat = 0x12ab655e9a2ca556_60b44d1e5c37b001_59aa76fed0000001_0a11800000000001nat;
    lemma_power_steps(b, 0, n, 1, 0, b);
    let v0: nat = b;
    let v1: nat = 0x10327abab9d26a3e_9ace6e353d028d6a_434274feeafca85e_d55191516499a5c8nat;
    lemma_power_doubles(b, 1, n, v0, 0x1de6e770e850c9_b59934a70baee43e_9abc46cf0b44c065_967237eb0c84a51cnat, v1);
    let v2: nat = 0x4df47427c211c9_d485e2e4c9620397_682d8ba376e9b8df_7c91241a3b310710nat;
    lemma_power_doubles(b, 2, n, v1, 0xe0d60a3688f9db5_6aaf1d0c46a098d6_595997068b0e844f_4fc6ba31993a6530nat, v2);
    let v3: nat = 0xfb23a4735073589_11a753e40576ae60_ca463f56dacd9400_4a07568de6fd1967nat;
    lemma_power_doubles(b, 4, n, v2, 0x1458087ee3c68_ab806696c046e5f3_8281c0c1fa79f8e6_74c4bb572d54c799nat, v3);
    let v4: nat = 0x6e3f5c16b9cd125_dce26032f2e80746_0b06439cda505f69_0d63269851ff68ffnat;
    lemma_power_doubles(b, 8, n, v3, 0xd32488411fad831_8470e97bf668172b_06830068c3b7c4ee_09beccbdfa1bde72nat, v4);
    let v5: nat = 0x75b2362cb1b49f5_adc47a87493a00b5_dd65d6717a9914c4_138b5e537c0e0c9fnat;
    lemma_power_doubles(b, 16, n, v4, 0x28b090034cab587_6dff7ed6322e6dfe_f152789c8f4b0d20_3837a3c039042162nat, v5);
    let v6: nat = 0x411e8c2643c820_3b2f163b554bb055_49d215eb27a1e9f2_26656fb7d490464dnat;
    lemma_power_steps(b, 32, n, v5, 0x94f3a559ad658c_940b42c466f1dfb7_9286638ed166f9a9_6488bc27ea8e9ec9nat, v6);
    let v7: nat = 0x7cdf3b85ed32def_29773689605bf612_ae8ad1d0caae12e4_f76b711f64123e7enat;
    lemma_power_doubles(b, 33, n, v6, 0xe322eb5e8719_b4110b0e7ab3407b_e73b50e57a871ef9_29609cb54ddbf4abnat, v7);
    let v8: nat = 0x11b55a73e35487a7_9a460ab274fee549_1e04c5ff0b22086f_6fda614f619329aenat;
    lemma_power_doubles(b, 66, n, v7, 0x3433674f53904bb_43f386b62a7225cf_3ed0ca1d04182b1d_244d3f53e7661c56nat, v8);
    let v9: nat = 0x10a4d57933b2b0e9_a88fa60546fcfe26_a4b3f7365882196d_db2a32473e2c16e3nat;
    lemma_power_steps(b, 132, n, v8, 0x16693d2c6bf28f7_88282c6ca14c1185_8c45f740c90bf713_7a35a519dd5c15a9nat, v9);
    let v10: nat = 0x129e6c68f8bea36c_b6e5b2b5c6153420_3106b9c13ed5e431_5960efd594bc9667nat;
    lemma_power_doubles(b, 133, n, v9, 0xed689179f1b1c55_efb0a1ced38bf420_b906836b5041b95c_3b26d0c23f5736e2nat, v10);
    let v11: nat = 0xd79db95314ac6af_3f7c7bec25ce788d_cba6b9ed212d6648_e9a66a661859c420nat;
    lemma_power_doubles(b, 266, n, v10, 0x12917c76e83a490c_bebb5efec44237d6_d12f0a1e65d67522_15a147d43f4b1951nat, v11);
    let v12: nat = 0x11d1c86465408910_6d7ab3446073bcd1_5990d61ded05dd18_a4a8636b6774adc6nat;
    lemma_power_doubles(b, 532, n, v11, 0x9ba2c0e13add9b0_c5e547c2aecea551_6d72a5ff5a9f2f45_8c245a548d0c563anat, v12);
    let v13: nat = 0x715dbfb909576a_f90490061d71cf7a_4d497d49b26a7968_ee9e1429ea4032bdnat;
    lemma_power_doubles(b, 1064, n, v12, 0x110213edf7ab9023_be7ec2b6c8aa0426_e9412428f4454f0e_08f6ec5d5b250267nat, v13);
    let v14: nat = 0xeb136372e5f0718_5ea22969c6fab7f0_e839b7a730d99019_c1b02ed10fd58e73nat;
    lemma_power_doubles(b, 2128, n, v13, 0x2b063b0883156_33fdf2d2748921a9_9394599e8a39cca0_0b720693dcb8d116nat, v14);
    let v15: nat = 0xcec40fe07972fa5_1e48e22d7114d018_5843a6befebbdfd3_d928e7895d06c502nat;
    lemma_power_steps(b, 4256, n, v14, 0x12980bcbf177d45_ad59cf0ddc0d2846_3a3dbc08fb9a077b_c6957436873c30dcnat, v15);
    let v16: nat = 0xb68002fa12254_47975c49866f5007_19726845f1ff6151_125167cc39e3b4banat;
    lemma_power_doubles(b, 4257, n, v15, 0x8f1f15f92476405_16dd9f3a46d95491_b80697608af1a2eb_6555fba90dd05f4anat, v16);
}

/// Part 2 of `lemma_modulus_root_x`.
proof fn lemma_modulus_root_x_part_2()
    ensures
        power(0x17a09f02f70064e_e78e2edff8bd7f3f_a1d66e7dc0531396_4256f4dc41db4d2anat, 0x8508c00nat, 0x12ab655e9a2ca556_60b44d1e5c37b001_59aa76fed0000001_0a11800000000001nat) == 0x50ed2aaf3d08a56_2e05f1944d16e84a_2d50cb7838126d9f_95eeb2f6a46a806dnat,
{
    let b: nat = 0x17a09f02f70064e_e78e2edff8bd7f3f_a1d66e7dc0531396_4256f4dc41db4d2anat;
    let n: nat = 0x12ab655e9a2ca556_60b44d1e5c37b001_59aa76fed0000001_0a11800000000001nat;
    lemma_modulus_root_x_part_1();
    let v0: nat = 0xb68002fa12254_47975c49866f5007_19726845f1ff6151_125167cc39e3b4banat;
    let v1: nat = 0x58e213f7eb7e588_11764c549942aef5_a5fe9eb7d6ed08d3_c043653509172608nat;
    lemma_power_doubles(b, 8514, n, v0, 0x6f7fdf48aac_c9b0d52dd94a55c7_c0a77eb4db6ff325_bd73803fcc5af11cnat, v1);
    let v2: nat = 0x171fafd4c79f212_d035678b6558f765_b655c87b0c88512a_44f3c6bfc135bb72nat;
    lemma_power_doubles(b, 17028, n, v1, 0x1a7292f172d047f_f0a5281cf612e5fc_dba8f867ed6c373f_5b11eb54a9e0a4cenat, v2);
    let v3: nat = 0x20e55d36894b1f1_cf6a525d0c094653_08f820ae971ae166_141047d9bef73715nat;
    lemma_power_doubles(b, 34056, n, v2, 0x1ca4089fb361c2_a3e4975b4baffab0_7ef84fbf03da3c1a_37d9542b4b7c87afnat, v3);
    let v4: nat = 0x96e77dd33e78cdd_3dab7b82cba17384_f9e4469b3f5eff18_1d1b4a5baedb9294nat;
    lemma_power_steps(b, 68112, n, v3, 0x29a1c1cbfb3fb1_e5017aacd9b75885_d26a6796d668dc4a_a6447a52753bc7denat, v4);
    let v5: nat = 0x3ecc003abf76efa_bb068c19e39114f7_a5dc264ebe391844_27e5078c3109394dnat;
    lemma_power_doubles(b, 68113, n, v4, 0x4c3bf62dd865556_1d328b0b95986952_fe7fd673e50a8f88_bf0575411c1bec43nat, v5);
    let v6: nat = 0x124ee3f29fa5a748_80f66cbb6cb45903_fa9b99e66d7f6b45_99ffc2bad6c9c1d6nat;
    lemma_power_steps(b, 136226, n, v5, 0x4f792c5636320d_33174e6a51412bfb_b0a0954f741a5892_e13091a18cd4cdccnat, v6);
    let v7: nat = 0xe6c622ae898e768_903e78464d2dbe5f_04d03c04fc40509a_ad54c1954dde58fenat;
    lemma_power_doubles(b, 136227, n, v6, 0x11f42ce1af7fdbe9_c3de775dfde22a16_cebb4f669c93c69d_7ef230766ef205e6nat, v7);
    let v8: nat = 0x7c0fbc06939e5b1_97c87df15e6a5a19_b1f87174f2c23bb7_90269c25258e253dnat;
    lemma_power_doubles(b, 272454, n, v7, 0xb24991a3be80a9a_09909fd7534de55a_2c6f89f2f5c009ae_bca0fa2e1de976c7nat, v8);
    let v9: nat = 0xccd8ebbaf977dda_aee1da971b260d92_c037092b52a0dcbe_044d709bfd85a6e7nat;
    lemma_power_doubles(b, 544908, n, v8, 0x33867be3d06b5a6_41271da89f16385d_b63f9daac8e8164c_4b3710b6f99109a2nat, v9);
    let v10: nat = 0xb3892212ff585_c316e7cafc9fd1ca_da75ea6233da8f77_e6e74a0200e4f036nat;
    lemma_power_doubles(b, 0x10a118nat, n, v9, 0x8c7a503ccc29429_7d77ef9405b7a3d0_caceb11bf5e8dd24_e4f9e3636df1743bnat, v10);
    let v11: nat = 0x438e1f0d1f8c991_e40ed18ec927f05d_0222e985264f1064_d5e9b66b9dbda57enat;
    lemma_power_doubles(b, 0x214230nat, n, v10, 0x6be81ed1430_fec44c5b949889b3_2966890828ecb583_3ec50f2923d7a5e6nat, v11);
    let v12: nat = 0xcac1b64a4051e22_167c7bcbcb101b30_737eff17914b74ed_478fe8a037a18cffnat;
    lemma_power_doubles(b, 0x428460nat, n, v11, 0xf472552ab21285_518bc6806710282e_d4ad391e36128602_5afe402e1b661d05nat, v12);
    let v13: nat = 0x11b8e91b106c285c_fca8fdeecdec1871_da7aafd1365f5d3b_d0f2d4d2a6d55ae6nat;
    lemma_power_doubles(b, 0x8508c0nat, n, v12, 0x89a000461e39675_c8c6c261ea358d16_be1b1c73a2e3b2c9_fb2bea7591908b1bnat, v13);
    let v14: nat = 0xd524e75f0bd34ec_2dfd9b78bd5e18cd_d80274c9f654903a_a8e8b3a02dfb3121nat;
    lemma_power_doubles(b, 0x10a1180nat, n, v13, 0x10d2ba511e7caf53_f21b31f65b894401_ee7dc6b1425cf7ab_fcca416a7d075583nat, v14);
    let v15: nat = 0x10fe379150450df5_6b2c947e4c11bba7_20c653945cab2436_9bc50595029c8775nat;
    lemma_power_doubles(b, 0x2142300nat, n, v14, 0x98166d671c26251_16ac565c898b9c75_07f88046fdd9d94b_f60ccf69f7871eccnat, v15);
    let v16: nat = 0x50ed2aaf3d08a56_2e05f1944d16e84a_2d50cb7838126d9f_95eeb2f6a46a806dnat;
    lemma_power_doubles(b, 0x4284600nat, n, v15, 0xf7793d31af86672_7e63acf382e2f5b1_95ef1794a01906ff_68585f0e8dda1b0cnat, v16);
}

/// Part 3 of `lemma_modulus_root_x`.
proof fn lemma_modulus_root_x_part_3()
    ensures
        power(0x17a09f02f70064e_e78e2edff8bd7f3f_a1d66e7dc0531396_4256f4dc41db4d2anat, 0x8508c000000nat, 0x12ab655e9a2ca556_60b44d1e5c37b001_59aa76fed0000001_0a11800000000001nat) == 0x1a3573413a61198_55e0fe937cc925dd_18b0ed79e30f1da2_bd3528df67a3c234nat,
{
    let b: nat = 0x17a09f02f70064e_e78e2edff8bd7f3f_a1d66e7dc0531396_4256f4dc41db4d2anat;
    let n: nat = 0x12ab655e9a2ca556_60b44d1e5c37b001_59aa76fed0000001_0a11800000000001nat;
    lemma_modulus_root_x_part_2();
    let v0: nat = 0x50ed2aaf3d08a56_2e05f1944d16e84a_2d50cb7838126d9f_95eeb2f6a46a806dnat;
    let v1: nat = 0xd70ab22e4b1885e_a90b9b242023f305_6d547c7fe68cdc08_f0cecb7866f6ca92nat;
    lemma_power_doubles(b, 0x8508c00nat, n, v0, 0x15eca5a00090588_aecb69f026e40b78_6eb59b9ba50ee62c_0389badddbba63d7nat, v1);
    let v2: nat = 0xb7b7fe44bd2b2f3_5ef704057e631cf1_1c1a829e62870d3e_3d3c9988eed613ecnat;
    lemma_power_doubles(b, 0x10a11800nat, n, v1, 0x9acec7f775859ef_b4d7bc1efda6e2ba_5f4c4fbb82e25b0e_bb4272ad5a0ca758nat, v2);
    let v3: nat = 0x1898eae2e3b563d_82f9c8ea5af9ad10_972013a953a32186_ac41d2fb01f50cdanat;
    lemma_power_doubles(b, 0x21423000nat, n, v2, 0x70fe5bedd54ffcd_c346f1bf8b4a1001_f46122534cac7a9d_82052fd51e27d4b6nat, v3);
    let v4: nat = 0x4044882dae8d872_47be2305511d2a3d_8a45771b9a16aa65_2cefa8210b1da472nat;
    lemma_power_doubles(b, 0x42846000nat, n, v3, 0x206845b3bcd4d5_f2ea707a12debec9_5372ef4ec783018b_9a7a080642cb8532nat, v4);
    let v5: nat = 0xe1f44e0dc49147_df75d96ac872c019_d03c7648bf3719a3_571cea56895369c7nat;
    lemma_power_doubles(b, 0x8508c000nat, n, v4, 0xdd3bfca0b4b236_f84508a871f485ad_4d2a62e574e06832_f4692a9dee22d8fdnat, v5);
    let v6: nat = 0x52b8b0002b90596_20cbcf592b15943b_fa99e20b1631eb7f_dfde47bd8bd61407nat;
    lemma_power_doubles(b, 0x10a118000nat, n, v5, 0xaaeb0da462688_8a7f242df6339fd8_fc4ac7ef05c2b819_7b1ff85b34e8c4aanat, v6);
    let v7: nat = 0x234c4dacf1663c2_f604aa0d6143b121_fca74a3a3a6355e5_b8e2b6a081cc42b6nat;
    lemma_power_doubles(b, 0x214230000nat, n, v6, 0x16e864957b314fe_14e1dcab1af8774f_ab1e7ffc8f3ecb8f_54f06a7a9578d57bnat, v7);
    let v8: nat = 0xcda5334098a1956_f4a7396aecb16a6d_21021dec8cf4d54f_948fbe67c7b2e64anat;
    lemma_power_doubles(b, 0x428460000nat, n, v7, 0x42bcbfaf6350b6_dac30e6c215a63de_77286debc5ec54d9_627eeb4e07bf731anat, v8);
    let v9: nat = 0x33ac18aebd8c21b_061665d59ab95fa8_6ef32f29f501c084_60a7b0b5f790bd46nat;
    lemma_power_doubles(b, 0x8508c0000nat, n, v8, 0x8d930924f81a20b_aad397b8f39a28da_fa4ef9df595700c5_ab8a15e22280501enat, v9);
    let v10: nat = 0x87574bf09e017ea_17bd96e0592561bc_85c784120fdb5ea1_60975b6087fa25e5nat;
    lemma_power_doubles(b, 0x10a1180000nat, n, v9, 0x8f03d9efb9a91e_d73c954a7c945e8a_2a12b2cbc60e3687_9f42a8ae06b6493fnat, v10);
    let v11: nat = 0x8744ee615e509a9_0db247aa1cf84a09_bb8d593156022cc1_638f0764c79f0267nat;
    lemma_power_doubles(b, 0x2142300000nat, n, v10, 0x3d520cd7bf0e010_ed497304320e9020_093eb66b51864e9f_7592fac0c740fc72nat, v11);
    let v12: nat = 0x11a87f281d27d014_498965f3df08134e_86ad0344ccef71a4_f39b63b0593517c5nat;
    lemma_power_doubles(b, 0x4284600000nat, n, v11, 0x3d416997a15a7cf_5069b2593a764bae_37fde462729a03fd_1038b747c4c2adacnat, v12);
    let v13: nat = 0x11c2ec60a5812376_c7453002ef2a8601_7622d0584be67756_ae2ee1ee468cd424nat;
    lemma_power_doubles(b, 0x8508c00000nat, n, v12, 0x10b39f39e606767b_40d7b14a1510c4fd_c3219785777a0068_8958a07b8d3a2975nat, v13);
    let v14: nat = 0x19c56679cc571c5_4257c664f5385055_e1dfca776b0e18af_fdf6fef434326500nat;
    lemma_power_doubles(b, 0x10a11800000nat, n, v13, 0x10e5c221e2e3041c_97705fb0b659cf8d_caa0a7bc41b8efad_7c140d7832f94010nat, v14);
    let v15: nat = 0xdc8444519ecbf4_060ef9d81495723b_12c0464aa2f238d8_409925559a103558nat;
    lemma_power_doubles(b, 0x21423000000nat, n, v14, 0x2392f19e98c509_af015492669475e3_473db4ce0325885e_fc0be59e01c8caa8nat, v15);
    let v16: nat = 0x1a3573413a61198_55e0fe937cc925dd_18b0ed79e30f1da2_bd3528df67a3c234nat;
    lemma_power_doubles(b, 0x42846000000nat, n, v15, 0xa2ca70b6e2e4d_5495a09d961bc88c_69c4e5211f0848b9_760f34c52e79cc0cnat, v16);
}

/// Part 4 of `lemma_modulus_root_x`.
proof fn lemma_modulus_root_x_part_4()
    ensures
        power(0x17a09f02f70064e_e78e2edff8bd7f3f_a1d66e7dc0531396_4256f4dc41db4d2anat, 0x8508c0000000000nat, 0x12ab655e9a2ca556_60b44d1e5c37b001_59aa76fed0000001_0a11800000000001nat) == 0x1113f1dbb11b41ca_8103d074d378c283_9e21435877964ab6_ea75f8640db116ednat,
{
    let b: nat = 0x17a09f02f70064e_e78e2edff8bd7f3f_a1d66e7dc0531396_4256f4dc41db4d2anat;
    let n: nat = 0x12ab655e9a2ca556_60b44d1e5c37b001_59aa76fed0000001_0a11800000000001nat;
    lemma_modulus_root_x_part_3();
    let v0: nat = 0x1a3573413a61198_55e0fe937cc925dd_18b0ed79e30f1da2_bd3528df67a3c234nat;
    let v1: nat = 0xe47e5c2db15e2_73b41081be186957_9fd07cab435111b1_10ca783a82b378e2nat;
    lemma_power_doubles(b, 0x8508c000000nat, n, v0, 0x24caea1e695fbd_0fc75a1d8aac7757_78a316b402c23ecf_0d4a4d6436d761aenat, v1);
    let v2: nat = 0xaced0d1d6aadc6_2b371a6bc945294a_723f2f97d047e3cf_b604a4f22f6bc4c3nat;
    lemma_power_doubles(b, 0x10a118000000nat, n, v1, 0xaec804e6f4e_8faae773c7da4371_3e65ca24924ea779_01d3460d9db4e2c1nat, v2);
    let v3: nat = 0x1a644c53b7776a1_10e88253cd7418a2_b0a04930a61bcec9_d1ad577b33b40ef7nat;
    lemma_power_doubles(b, 0x214230000000nat, n, v2, 0x641b91fb498cc_6e27bd449c6ea0eb_6a3446048332697a_239240ce78891d92nat, v3);
    let v4: nat = 0x129fde28132ded7b_f47340a81f0cbcbd_0bca165cd85ceb07_9a0e1ee0695b7e9anat;
    lemma_power_doubles(b, 0x428460000000nat, n, v3, 0x254ee81932f4fe_103859c44cbfd6ac_96b994e82f1981c2_fa68e1150cdc73b7nat, v4);
    let v5: nat = 0x35bffc520a4258b_c5d84d45e5ef33c4_60d9e2dda389aac4_08aaf560b060554dnat;
    lemma_power_doubles(b, 0x8508c0000000nat, n, v4, 0x12945e0fe1d0c088_5952916458654595_121a3e5b8e2e98c7_4ae05eace3b79f57nat, v5);
    let v6: nat = 0x449ee75d61b6c1e_c9ba78e16e678a6e_1a9ccb874e08ff2b_ab1172680d5c2368nat;
    lemma_power_doubles(b, 0x10a1180000000nat, n, v5, 0x9abf4cc057a6a6_9bf68481e5346e98_825eefcaad76bd4b_8d8b02e1e8d015c1nat, v6);
    let v7: nat = 0x1cb2fcd01ff3834_c0bd82f86af2644f_eb5b59ef880a55c0_53a976631769e0c8nat;
    lemma_power_doubles(b, 0x2142300000000nat, n, v6, 0xfc3803ae466b29_a252dde23d91b1d6_6290deec0ce2f81e_5d8a6adef03bb978nat, v7);
    let v8: nat = 0x112fd05e4a30add1_955b71e09d7501fa_82c0e2a533d00b9c_1ffbea1f445489afnat;
    lemma_power_doubles(b, 0x4284600000000nat, n, v7, 0x2c1df16d5886cd_c6b5249a526b410e_f2b9eee74730594e_226b02bed51a1291nat, v8);
    let v9: nat = 0xaf2afc9f6303928_28843fa6f7bda18a_bdefcbeab9af8894_08e3a61ce91e2b25nat;
    lemma_power_doubles(b, 0x8508c00000000nat, n, v8, 0xfd260e553b5b866_2950bb01c03b9e29_139d18fadc704bf6_1936a354b3c69a7cnat, v9);
    let v10: nat = 0x272c83103e34e61_511c6eb6b324f15c_8a13b42216d85f6e_1f5a48813ede9311nat;
    lemma_power_doubles(b, 0x10a11800000000nat, n, v9, 0x66b862d3ccd3270_c3c10d8b508711f2_da4430ed8724b64e_822d11ae3f12e048nat, v10);
    let v11: nat = 0x18a665c781305cc_f01a3ca867864b18_0b0eb0fbf1e1452c_a18584046307b601nat;
    lemma_power_doubles(b, 0x21423000000000nat, n, v10, 0x5232a0ce3db4b4_556450771984c88f_9245ff585cd8c568_f738d3dd3ef0d120nat, v11);
    let v12: nat = 0x8c96c0907489637_a6d047b58d428aa1_7d2406f38bb51bef_449045b6b2849b91nat;
    lemma_power_doubles(b, 0x42846000000000nat, n, v11, 0x208bd4a1377392_7fda842a92916096_e7bf7b5b00a81ca4_ad0f695188eed070nat, v12);
    let v13: nat = 0xe29b545337764df_183777a0f179a882_019cc275dcc85742_86e5e3706bb159d8nat;
    lemma_power_doubles(b, 0x8508c000000000nat, n, v12, 0x422b0acfc59e0d0_68612b703bac676e_bfc3564132b9678d_3d22a5c2045f8e49nat, v13);
    let v14: nat = 0xa41616ca501de83_55e8f3cd98775b32_b22e6d3b0c2bacda_bfe4c60eb4affa44nat;
    lemma_power_doubles(b, 0x10a118000000000nat, n, v13, 0xabe81a249ace2e6_291d386d8228d314_ec6cb547d321d53a_90a2a2e93787ebfcnat, v14);
    let v15: nat = 0xfd353c1b53740a0_e51b638291efc3cd_f80dcda0c2bc9854_84c873dae102d88bnat;
    lemma_power_doubles(b, 0x214230000000000nat, n, v14, 0x5a2275243717bcd_1983329388c9fded_e762b76dd162ea09_5da88c7cdc9e0985nat, v15);
    let v16: nat = 0x1113f1dbb11b41ca_8103d074d378c283_9e21435877964ab6_ea75f8640db116ednat;
    lemma_power_doubles(b, 0x428460000000000nat, n, v15, 0xd6a2b2d5d3af246_b42ca1476736b314_ea1cbd90edcada80_ec53b70461a5c48cnat, v16);
}

/// Modulo the field order: the root to the power `x`.
proof fn lemma_modulus_root_x()
    ensures
        power(0x17a09f02f70064e_e78e2edff8bd7f3f_a1d66e7dc0531396_4256f4dc41db4d2anat, 0x8508c00000000001nat, 0x12ab655e9a2ca556_60b44d1e5c37b001_59aa76fed0000001_0a11800000000001nat) == 0xcf2493fb395ca90_970db6fae4fed2f5_c2f93037fb602681_ab265b0f9428da11nat,
{
    let b: nat = 0x17a09f02f70064e_e78e2edff8bd7f3f_a1d66e7dc0531396_4256f4dc41db4d2anat;
    let n: nat = 0x12ab655e9a2ca556_60b44d1e5c37b001_59aa76fed0000001_0a11800000000001nat;
    lemma_modulus_root_x_part_4();
    let v0: nat = 0x1113f1dbb11b41ca_8103d074d378c283_9e21435877964ab6_ea75f8640db116ednat;
    let v1: nat = 0x129476d89d037f58_4c968e16ba0bda4a_9c983171f5c99a4e_24ef55bbb4f750d3nat;
    lemma_power_doubles(b, 0x8508c0000000000nat, n, v0, 0xf9f3abafb8615c9_d3cab44670c7d61f_bec91132837f1383_33f23a4112d04696nat, v1);
    let v2: nat = 0x79cd2303940504f_c3d69a09e7cd42bf_9d5f4bdaf63285c3_916183d14391bcd8nat;
    lemma_power_doubles(b, 0x10a1180000000000nat, n, v1, 0x127da47d60ad781e_5811833d40e6a83e_75a1cdeac1ec306e_d8d7e706851cd111nat, v2);
    let v3: nat = 0xec9adf51714e0e9_7afab7c18730cfc0_e04f3ce4d9ef78af_69833c422038e8f2nat;
    lemma_power_doubles(b, 0x2142300000000000nat, n, v2, 0x31aa41177dee266_0486905419f94274_d2454be4b797f329_7a68c83e67c50d4enat, v3);
    let v4: nat = 0xe995094eb843088_8a4e6050ef145741_7fb74f9d6d9ebde5_b711b5d23784b9afnat;
    lemma_power_doubles(b, 0x4284600000000000nat, n, v3, 0xbb692c7925b7dd9_d09caf72fd21692a_0671ab09cfd160cd_cf429dd90652cb15nat, v4);
    let v5: nat = 0xcf2493fb395ca90_970db6fae4fed2f5_c2f93037fb602681_ab265b0f9428da11nat;
    lemma_power_steps(b, 0x8508c00000000000nat, n, v4, 0x1279cd8d81626cd_bf931c1d5f9d581e_5b0432a1936eb479_866cc434bb2c3fa5nat, v5);
}

/// Part 1 of `lemma_modulus_root_t`.
proof fn lemma_modulus_root_t_part_1()
    ensures
        power(0x17a09f02f70064e_e78e2edff8bd7f3f_a1d66e7dc0531396_4256f4dc41db4d2anat, 3404, 0x12ab655e9a2ca556_60b44d1e5c37b001_59aa76fed0000001_0a11800000000001nat) == 0x1810aa585a0e34d_aff7a09ab2859488_2d9017b1e7e3ae5e_916cc27d6f6fae9fnat,
{
    let b: nat = 0x17a09f02f70064e_e78e2edff8bd7f3f_a1d66e7dc0531396_4256f4dc41db4d2anat;
    let n: nat = 0x12ab655e9a2ca556_60b44d1e5c37b001_59aa76fed0000001_0a11800000000001nat;
    lemma_power_steps(b, 0, n, 1, 0, b);
    let v0: nat = b;
    let v1: nat = 0x10327abab9d26a3e_9ace6e353d028d6a_434274feeafca85e_d55191516499a5c8nat;
    lemma_power_doubles(b, 1, n, v0, 0x1de6e770e850c9_b59934a70baee43e_9abc46cf0b44c065_967237eb0c84a51cnat, v1);
    let v2: nat = 0xae4a8bd8dcd3089_f229672631b1c4b2_97feb4ac56d6b74d_029ef900745ff23dnat;
    lemma_power_steps(b, 2, n, v1, 0x147fa04793ceb16_42472f07e4bf2d1f_ce80d75004d10079_c3d50404ddca6893nat, v2);
    let v3: nat = 0x7b30e1894bf375c_d4d8cf8570698bb6_ee33bc639dad0429_566e6ef7fa805d30nat;
    lemma_power_doubles(b, 3, n, v2, 0x65b1d0fb4b1554f_f9595b4b835e2c9e_f6a01ae17900d1c9_2369d284fbfd0559nat, v3);
    let v4: nat = 0x7414837413081eb_73c95b212d6edb9d_7e7c27b1f918b617_a2907544f8f3578anat;
    lemma_power_doubles(b, 6, n, v3, 0x32ce059e8341b1d_67f2bdc909799bd4_bea30476ec27378d_ce0693ba18f89176nat, v4);
    let v5: nat = 0x3b2759b7948dcf4_482e1d326327fbff_3fa9d62628a522dd_ef0d9da991b96664nat;
    lemma_power_steps(b, 12, n, v4, 0x92e815d88f8ffe_ad09337d74fb27b6_37468b4b2b10d4d3_a9ace28664957840nat, v5);
    let v6: nat = 0x3a44db7f456123b_eff5336097d41209_be9c55336021fbae_d5a8e0867fddcba2nat;
    lemma_power_doubles(b, 13, n, v5, 0xbb6d2e527929d4_fa8224c2d982dc16_a8695b2d41b2cddd_55cd83c3ed9e0b6enat, v6);
    let v7: nat = 0xc815f2435aeb5c6_1e2b9e6873809528_014606bf87022808_871cfaddf9a6a97anat;
    lemma_power_doubles(b, 26, n, v6, 0xb5dca4c2dd05de_1847b5d8f371145c_2175bd7924bc556a_1fbe82edfa07a90anat, v7);
    let v8: nat = 0xd92e2b6401e3707_f29801e56c35b233_36fc190c202a56c2_9f1e7dc3b0648047nat;
    lemma_power_steps(b, 52, n, v7, 0xfd388a571b78c7_c8da81780286b38f_1bb7133c12546b49_25b1be315b4affbdnat, v8);
    let v9: nat = 0x59647b4cb87e4df_75f5ef54ded6f03b_2c97cd3a6c4ea98e_0d0d884c045e7a98nat;
    lemma_power_doubles(b, 53, n, v8, 0x9de6f2dc88fce94_7cb3641bed156a35_e49e30a47450a29e_1c4c11b413609919nat, v9);
    let v10: nat = 0xa75fda5ed954f46_d0b3f08999c35fae_7410f1c6c095b8cb_1e4171ec990768d9nat;
    lemma_power_doubles(b, 106, n, v9, 0x1ac06694579652f_00381967f369ebe9_e215da613316ceb0_e9116f06694dd167nat, v10);
    let v11: nat = 0x1175435f3aadeaf6_ce833b046d7fb68a_acd47f33045213ed_7dc2072eb29d0b8fnat;
    lemma_power_doubles(b, 212, n, v10, 0x5dc88186454317f_19684fa12decd647_dff698ffae7f9ba9_136fb6739631fc62nat, v11);
    let v12: nat = 0xf4bf43d7bf5e931_d1e2e54ff52ac00c_c399a183a431315c_cd7510d7fdc99d40nat;
    lemma_power_steps(b, 424, n, v11, 0x161820ff952d272_e6fb216a953fe75b_7476a0e089b2b739_5ea90fb6bec94b36nat, v12);
    let v13: nat = 0xef7b84d194201d4_dcea5ffd25026ec6_9dd7c18371efec6f_daf0e3b610396337nat;
    lemma_power_doubles(b, 425, n, v12, 0xc88803a2344c172_575b4a984d8f5ca4_1a109aa11e1748ee_efb7dd62bede2cc9nat, v13);
    let v14: nat = 0x120b326ad2f964d8_e5dd166102d40c6c_8cfebee525adc3b4_1be8c997e2b685d6nat;
    lemma_power_steps(b, 850, n, v13, 0x12f1474bceb170c_ee1ffbbbfcccd7cf_163d7da59e1035d3_5c0c77b4e0984c30nat, v14);
    let v15: nat = 0x1139ee611531e562_c7a93fef163caf47_01d50b88215dcf2d_80c8419d033e291enat;
    lemma_power_doubles(b, 851, n, v14, 0x11705e191056ed94_53f2e08bb0e4210d_1886e96317e22d8f_205173476701e5c6nat, v15);
    let v16: nat = 0x1810aa585a0e34d_aff7a09ab2859488_2d9017b1e7e3ae5e_916cc27d6f6fae9fnat;
    lemma_power_doubles(b, 1702, n, v15, 0xfe5070015c774d7_60e7bac79ce45b89_6b06c64e657a8654_cef5ec5d35b2f0e5nat, v16);
}

/// Part 2 of `lemma_modulus_root_t`.
proof fn lemma_modulus_root_t_part_2()
    ensures
        power(0x17a09f02f70064e_e78e2edff8bd7f3f_a1d66e7dc0531396_4256f4dc41db4d2anat, 0x3536b2nat, 0x12ab655e9a2ca556_60b44d1e5c37b001_59aa76fed0000001_0a11800000000001nat) == 0x75410218bd70001_3a255c5c401c9779_8abd79239f519198_75e309f5fd921fbenat,
{
    let b: nat = 0x17a09f02f70064e_e78e2edff8bd7f3f_a1d66e7dc0531396_4256f4dc41db4d2anat;
    let n: nat = 0x12ab655e9a2ca556_60b44d1e5c37b001_59aa76fed0000001_0a11800000000001nat;
    lemma_modulus_root_t_part_1();
    let v0: nat = 0x1810aa585a0e34d_aff7a09ab2859488_2d9017b1e7e3ae5e_916cc27d6f6fae9fnat;
    let v1: nat = 0xe8068a28ee773d3_3e09c72408bcc51f_457a7e54f8eb400d_ad2d319bb38d39b3nat;
    lemma_power_steps(b, 3404, n, v0, 0x1e74b3f9284831_c147c33037571285_0835a8f050a5c27c_ca533e01ed503f63nat, v1);
    let v2: nat = 0x513a747b340bf80_3ae4924cf74f133b_d2275bcd53fdc67f_6dca1f11c35c3740nat;
    lemma_power_doubles(b, 3405, n, v1, 0xb439f9e26c927c7_7b514d4cceda4566_6578e2e7585ce793_71bf92492ad2fbe9nat, v2);
    let v3: nat = 0xbc469ded80f808f_45588f1d4e96f95e_1fe11274e76c6b40_0b7677bb302abe31nat;
    lemma_power_steps(b, 6810, n, v2, 0x66ccab2b4befb8_0f5d8264a4d815b6_78f9b3a49b4efe5c_9ad97ddc1d54924fnat, v3);
    let v4: nat = 0x3719dbc89499f9b_c39923589ce18baf_2f9c3843e443c050_e6a7861dfcd2a468nat;
    lemma_power_doubles(b, 6811, n, v3, 0x76ab3007202c9ca_e64ed8be462f5921_482c584dca66b59b_cdd271ed588e20f9nat, v4);
    let v5: nat = 0x102e99a1d40ad748_70b7811f1831e5d1_b57c4143bc72b817_61100df312e7a482nat;
    lemma_power_doubles(b, 13622, n, v4, 0xa29fe18e632d6f_5d2c55d4966caecb_cd4de29792cc2d0d_53a8729bd14dc5benat, v5);
    let v6: nat = 0xf2b671738055e88_6356d76171216b54_82a103603370da49_69368a4e102e4754nat;
    lemma_power_steps(b, 27244, n, v5, 0x147ab774200377d_986e1b37a707f0ee_9210da527f1ee9b2_15e520e97383d000nat, v6);
    let v7: nat = 0x11af8b2085d1e409_784989b4e6dd0bc3_7ddbba11d3df730a_4779394df1601f46nat;
    lemma_power_doubles(b, 27245, n, v6, 0xc53619a8f8234d7_96ff77c359d09259_a5a384af59ab3410_f3079f2a44af944anat, v7);
    let v8: nat = 0x1291795e5b56d04f_78430523815a8ffb_2ab49e28111531f0_e53e22d303ac94dcnat;
    lemma_power_doubles(b, 54490, n, v7, 0x10c0f6628c641d23_cdae5e68bca62574_08df9e08ab2c1ae7_4457f84240a57248nat, v8);
    let v9: nat = 0xda8b20487dfb8af_abe92309ee637ad4_2be9e32d52d26e07_4565f8c53aa3e1cdnat;
    lemma_power_steps(b, 108980, n, v8, 0x177fd0bdf5d5dd2_eadcf9b974e6c4f8_1323c92ed6f830bc_61b149737ca6b64bnat, v9);
    let v10: nat = 0xe122344d61148aa_623b836cb5139d6b_2c983ac0c09ba74f_c11954f2424140c4nat;
    lemma_power_doubles(b, 108981, n, v9, 0x9fe3f66f70aa6f6_f001e5725fa6df53_14a3a1e32be9a656_db668bc9f3f6bd65nat, v10);
    let v11: nat = 0xe6e0af2ce9e5729_b8dd9f6ec62baf55_7cdb01e973ba26f9_577006c84e562829nat;
    lemma_power_steps(b, 217962, n, v10, 0x11ceba63ba3c60f_8a2639b8ac0dfb3d_dc3d76d3afa06de5_b70dfe985c856bffnat, v11);
    let v12: nat = 0x107de457d9053296_db2339d345e95544_587117352ab58452_b65a68c9a11375e8nat;
    lemma_power_doubles(b, 217963, n, v11, 0xb272996f73cb2c7_4a34c9ae805ab81f_832701c2d9ad7497_1e7160be5cc560a9nat, v12);
    let v13: nat = 0x6a89f17c0e71a39_0282122c54c9b982_bca00ffe802e6e50_eb639dd76920cd96nat;
    lemma_power_doubles(b, 435926, n, v12, 0xe916b59ad0b0806_6e721b9fe194deec_a96730b45268fb9c_73d284411d9d14aanat, v13);
    let v14: nat = 0x48ca2d0ef8d3d87_19f6185ab843de0d_041acec35bf24e0e_d6ac6ef2a627d022nat;
    lemma_power_doubles(b, 871852, n, v13, 0x25ff895a20bd5b9_c83ccbdca15dd159_338f172e53cda787_1603cbda7071c3c2nat, v14);
    let v15: nat = 0xc86c045ff0950c0_6c155ab5da11707f_6392e8fd0355d3f6_980498ed50fcbe6dnat;
    lemma_power_steps(b, 0x1a9b58nat, n, v14, 0x5c1eb3b4ff61a1_ca62042b7c9fc1db_459452242c390c0c_65419bfb9a3ba127nat, v15);
    let v16: nat = 0x75410218bd70001_3a255c5c401c9779_8abd79239f519198_75e309f5fd921fbenat;
    lemma_power_doubles(b, 0x1a9b59nat, n, v15, 0x8679475af3b40bb_1f7fdfce271bfec9_9309203f22040e20_fc8d6c6796abdaabnat, v16);
}

/// Part 3 of `lemma_modulus_root_t`.
proof fn lemma_modulus_root_t_part_3()
    ensures
        power(0x17a09f02f70064e_e78e2edff8bd7f3f_a1d66e7dc0531396_4256f4dc41db4d2anat, 0x1a9b59998nat, 0x12ab655e9a2ca556_60b44d1e5c37b001_59aa76fed0000001_0a11800000000001nat) == 0xbe04c1d7efb0f3_44fec1f3e081cdcf_67da54f22ff93bef_cd521c0a33309266nat,
{
    let b: nat = 0x17a09f02f70064e_e78e2edff8bd7f3f_a1d66e7dc0531396_4256f4dc41db4d2anat;
    let n: nat = 0x12ab655e9a2ca556_60b44d1e5c37b001_59aa76fed0000001_0a11800000000001nat;
    lemma_modulus_root_t_part_2();
    let v0: nat = 0x75410218bd70001_3a255c5c401c9779_8abd79239f519198_75e309f5fd921fbenat;
    let v1: nat = 0x19e74a6bb31e40b_69f783a89f3f6e53_9cc153110d3a7bf5_7b25a6aadf4b110cnat;
    lemma_power_steps(b, 0x3536b2nat, n, v0, 0x946461450a0ba2_6b7b1e083b4eaa22_6e6d8a517e9f0602_a5635e4e13c44a20nat, v1);
    let v2: nat = 0x3da66e5e2ece7e1_357bd430e8cb1e0d_3989bfcdccdedd73_392c2aca84dc35ddnat;
    lemma_power_doubles(b, 0x3536b3nat, n, v1, 0x23f0bf67f1a7d1_e7b1b4b5abdc0ebf_7cbfb2a88dff6bd2_2ba166db614e62b3nat, v2);
    let v3: nat = 0x9a723174ffbc717_16928ace3260f395_6b2be93d87a9aede_3d52814c1ed0563anat;
    lemma_power_doubles(b, 0x6a6d66nat, n, v2, 0xcb94722cab3180_e6ca649eb6494bfd_84b605d79249691a_44045870685cea8fnat, v3);
    let v4: nat = 0x10769d6dcd322ea3_a4a8e9158b0a39b5_b4d1c7c853bab127_6b840233cebcdf6anat;
    lemma_power_doubles(b, 0xd4daccnat, n, v3, 0x4fdacff6187b483_090633d848949936_edb9be1b508d84c4_e3bc21fe048e25banat, v4);
    let v5: nat = 0xb12989c6b2dd929_13665a1f2685bb27_81c3653c0912ce26_c0f982e02b589904nat;
    lemma_power_steps(b, 0x1a9b598nat, n, v4, 0x14d5db182a9b6de_0de256d7c4855d64_498c7c02e7b8be04_837546339884f060nat, v5);
    let v6: nat = 0xc09a484b07851ba_a656a196df522fbb_32c2b194d12a57f2_0789483fefcec556nat;
    lemma_power_doubles(b, 0x1a9b599nat, n, v5, 0x6912946f542a502_9ec37b000912c88a_a58b77b395a74c8f_8c5270d0f66702banat, v6);
    let v7: nat = 0x916fd37ebc22d55_ce7b4ab1ed71faa5_9f1d7112f3c8c393_f7c755298efea7d9nat;
    lemma_power_steps(b, 0x3536b32nat, n, v6, 0xf3c02632e4d43f_488a079295a78bad_6ea98e6ea5128d59_5726745aa0da9643nat, v7);
    let v8: nat = 0x45bf52c13bf64dd_9087f61ed83e11c2_00bb49f0a0fd3e7f_4ad39378ac14b90anat;
    lemma_power_doubles(b, 0x3536b33nat, n, v7, 0x46cf68219e79f12_2231786ff0227d04_9d21e73115922a10_9fa7498f90941ce7nat, v8);
    let v9: nat = 0x123540c575635f2e_e3142ad108412ba4_a9b6048fcc653d13_71983fec0ea7d62anat;
    lemma_power_doubles(b, 0x6a6d666nat, n, v8, 0x104919e8fa3cae6_0212f34ad2095b44_42d6e8616005389f_5b878fc6d0a79e3anat, v9);
    let v10: nat = 0x916275c94ef6911_87abe9a3de9dbc0e_c3cbe78ea1ce1de2_46831fb11fc6007fnat;
    lemma_power_doubles(b, 0xd4dacccnat, n, v9, 0x11c207cbce478098_8b345538dd43fe3a_84958bcc5d60e679_8b27b33496303e65nat, v10);
    let v11: nat = 0x26e101438b29c3_8d1b750380cf299a_4a0af31795e9303b_ae83c1cc8ae6833bnat;
    lemma_power_steps(b, 0x1a9b5998nat, n, v10, 0xb7fe433d692364_884740138b243087_095efc2a81262779_d9d22577e560c49bnat, v11);
    let v12: nat = 0xc1c8b17d0caed1d_ea4747d41b71943a_5a7e635e23d27717_98c4d59761e555d0nat;
    lemma_power_doubles(b, 0x1a9b5999nat, n, v11, 0x50f6f383c071_c504f8cde00820a6_66db5afc02928b23_88fd1b7c4b6419c9nat, v12);
    let v13: nat = 0x94ccdeba56a63b6_076e9d8d84ee198a_97a41671fe6c5479_70fa28ad83e55853nat;
    lemma_power_steps(b, 0x3536b332nat, n, v12, 0xf53ede72577d31_877e16ee231d5479_a3b8947446a961c8_f627e354bf7a4bcdnat, v13);
    let v14: nat = 0xf53e0da39fbe9cd_b9ad692f1c32ea1d_3c618a4c6e88e9b7_32919aef3aa97fbbnat;
    lemma_power_doubles(b, 0x3536b333nat, n, v13, 0x4a1f8d09454df57_b91ffce3f88d3010_ed46304677dd649e_236d3b1ada4dab2enat, v14);
    let v15: nat = 0xfd28d6d34a85a02_2e34edec10177379_e69361b3db030b01_c223f2e9f820db54nat;
    lemma_power_doubles(b, 0x6a6d6666nat, n, v14, 0xc957fd711741de6_ba4b58e655b1836e_5f2d6668b9eb9631_0615465aa8803745nat, v15);
    let v16: nat = 0xbe04c1d7efb0f3_44fec1f3e081cdcf_67da54f22ff93bef_cd521c0a33309266nat;
    lemma_power_doubles(b, 0xd4daccccnat, n, v15, 0xd68daf97015538f_565281783837f385_83a02498de350b45_1e40a0081db8412anat, v16);
}

/// Part 4 of `lemma_modulus_root_t`.
proof fn lemma_modulus_root_t_part_4()
    ensures
        power(0x17a09f02f70064e_e78e2edff8bd7f3f_a1d66e7dc0531396_4256f4dc41db4d2anat, 0x6a6d6666666nat, 0x12ab655e9a2ca556_60b44d1e5c37b001_59aa76fed0000001_0a11800000000001nat) == 0x21a32eeecd499c1_632ac41a2eeb142a_d59e17210636cf73_1fc3ee0ad6a68865nat,
{
    let b: nat = 0x17a09f02f70064e_e78e2edff8bd7f3f_a1d66e7dc0531396_4256f4dc41db4d2anat;
    let n: nat = 0x12ab655e9a2ca556_60b44d1e5c37b001_59aa76fed0000001_0a11800000000001nat;
    lemma_modulus_root_t_part_3();
    let v0: nat = 0xbe04c1d7efb0f3_44fec1f3e081cdcf_67da54f22ff93bef_cd521c0a33309266nat;
    let v1: nat = 0x556381041f1dc2c_449082fcd08262f3_b0588aa0a805fb8f_bf068d4e8703079cnat;
    lemma_power_steps(b, 0x1a9b59998nat, n, v0, 0xf07af2bbad080_d423c7799aa71a38_94c2eb88630b631e_877545249e3fab20nat, v1);
    let v2: nat = 0x11e71a5bfc1de8a8_227693c060546490_8cf7bb90d4240e11_a5675ab49ebd6fcanat;
    lemma_power_doubles(b, 0x1a9b59999nat, n, v1, 0x1868ab97d7c28d2_6610fffc7e9be813_61261d105108d398_7e0e526b17247746nat, v2);
    let v3: nat = 0x3a31e5eacd6695f_84afe95cea3df744_696dacd350f77514_d182aeec3fccb76enat;
    lemma_power_steps(b, 0x3536b3332nat, n, v2, 0x16a8334039d0f29_62c5179b6242b9bc_9528673180318bec_2dd0057db1b561b6nat, v3);
    let v4: nat = 0x1207a4397c828321_c121d75be92db1cc_1579c5721f68ba5d_cd385bf4baeec268nat;
    lemma_power_doubles(b, 0x3536b3333nat, n, v3, 0xb5665f3b765a05_287d9eba2fb517eb_8787b4e422e71a86_e627c4d843cfb0dcnat, v4);
    let v5: nat = 0xbbd27cd5b111c9_d99e5f90f6caf67e_f725bdf7a688ef6e_9fd5548c99c4c6a4nat;
    lemma_power_doubles(b, 0x6a6d66666nat, n, v4, 0x11697f680e54c04b_7aff96853c9da285_ca397212c6140c5f_c45902e0933d039cnat, v5);
    let v6: nat = 0x82eafd16cbdb8aa_d0bd87c5fa5890f9_b41dc735f0f8ad8c_fb09638f6befee56nat;
    lemma_power_doubles(b, 0xd4dacccccnat, n, v5, 0x7618f92caf180_3b72ac12d6256404_45d8ca3388379a33_c8194c8161522abanat, v6);
    let v7: nat = 0xa3d786b80186f02_52207e22eeeb6622_4a9a0fd07f787b91_ef2cec40e8f03a26nat;
    lemma_power_steps(b, 0x1a9b599998nat, n, v6, 0xa5af4a5e5aebf5_9bab896856038779_0484bfeee01f4b9e_bf56986ab0aebdf6nat, v7);
    let v8: nat = 0x4b7bbce9dd93947_58f804250a1c129b_fcb7627320ddcf68_a955e342edc3e7aenat;
    lemma_power_doubles(b, 0x1a9b599999nat, n, v7, 0x59ddc698f275eb7_e34cf48e8feaeb31_d05691a11c51b849_82b08a8f06b155f6nat, v8);
    let v9: nat = 0xe491c69deb995ba_3b82ccf1734c0613_c720062dfc667d42_137219b7f114d8b5nat;
    lemma_power_steps(b, 0x3536b33332nat, n, v8, 0x5f87629f86f9c8_513c3077c3ec9d21_4516c772849478e5_8d0ee6b95d987fd7nat, v9);
    let v10: nat = 0xeaaaeafa3253ba3_3790315869e86306_f20f4870cd47b1dd_72b11566ef405db8nat;
    lemma_power_doubles(b, 0x3536b33333nat, n, v9, 0xaee5ba3a1317d98_5085b6829b4c826a_76f2487b27b32e2c_043ad9166e799241nat, v10);
    let v11: nat = 0xc96a2848ef6c1ea_38f18163b2d5d7b4_a3615fb246a1f6a7_506b8b5d6245f9fanat;
    lemma_power_doubles(b, 0x6a6d666666nat, n, v10, 0xb85ab740ff3fd40_3a026b6247d148fe_093ad48bdd0366f8_067f926f2c093a46nat, v11);
    let v12: nat = 0x27c9de0aa84b5d0_248dc90c5f38650f_676721605883d73f_33ba7e6c991ff789nat;
    lemma_power_doubles(b, 0xd4daccccccnat, n, v11, 0x87cf27e2a629edf_0e4c0ba6ab7cbad4_4f05c75100d0054f_fcafc3bb83bc509bnat, v12);
    let v13: nat = 0x568e66aa920cc5_1b6992d1bb5fd804_69f4fac6e3646b80_09ea1ddd2df536a5nat;
    lemma_power_steps(b, 0x1a9b5999998nat, n, v12, 0x325ad8501e166a_377e2b32dd8b6d4f_8c2688849d7e4657_e65b33f119f09ad5nat, v13);
    let v14: nat = 0x398f361252b8be4_07ddbc764e2af71a_efbed0eed785fa2b_4cfbeed10241ec72nat;
    lemma_power_doubles(b, 0x1a9b5999999nat, n, v13, 0x1914b8bbc0585_2e00968216d8b6df_3b60ccefc2f42f13_575f6c28a33a19e7nat, v14);
    let v15: nat = 0xae25e209592a106_61f8aa83f102fd80_c880735e6b50dcc2_2f0db0f043dd2b2dnat;
    lemma_power_steps(b, 0x3536b333332nat, n, v14, 0x48d85229604364_fece8621bae29db8_69f467ffc7edbf4b_7311606e2697e987nat, v15);
    let v16: nat = 0x21a32eeecd499c1_632ac41a2eeb142a_d59e17210636cf73_1fc3ee0ad6a68865nat;
    lemma_power_doubles(b, 0x3536b333333nat, n, v15, 0x65870cb4a7d33d5_bf85a55a82281b3e_e21107dd5c8e5b7e_c8546a024a539d84nat, v16);
}

/// Part 5 of `lemma_modulus_root_t`.
proof fn lemma_modulus_root_t_part_5()
    ensures
        power(0x17a09f02f70064e_e78e2edff8bd7f3f_a1d66e7dc0531396_4256f4dc41db4d2anat, 0x3536b333333332nat, 0x12ab655e9a2ca556_60b44d1e5c37b001_59aa76fed0000001_0a11800000000001nat) == 0xd88227d532e0725_f86cc9b6f15b71ef_a616664f4ceb4937_3ca76a0ddf202f78nat,
{
    let b: nat = 0x17a09f02f70064e_e78e2edff8bd7f3f_a1d66e7dc0531396_4256f4dc41db4d2anat;
    let n: nat = 0x12ab655e9a2ca556_60b44d1e5c37b001_59aa76fed0000001_0a11800000000001nat;
    lemma_modulus_root_t_part_4();
    let v0: nat = 0x21a32eeecd499c1_632ac41a2eeb142a_d59e17210636cf73_1fc3ee0ad6a68865nat;
    let v1: nat = 0x11b7e95b048354b9_b881c65134e4391f_b5bea1bd11d40ac8_3ca58292f77fe4d7nat;
    lemma_power_doubles(b, 0x6a6d6666666nat, n, v0, 0x3c9b080652b2dc_1969e56d9cd1d9b8_44f917bc30909ad0_812ec9af10279302nat, v1);
    let v2: nat = 0x9ef9efd10718357_5b684587d3c60589_25c205d9fecd7e88_1aabe13bc79eea28nat;
    lemma_power_doubles(b, 0xd4dacccccccnat, n, v1, 0x10d0d4d23c443c91_a239f577b3b66b30_f927c91fdc4ae2b5_67e00b7bf442c269nat, v2);
    let v3: nat = 0x6ff0bb1915c55e1_722243099ded94e9_191d1fd475528583_c503bdb7642eb78enat;
    lemma_power_steps(b, 0x1a9b59999998nat, n, v2, 0xc931c16b8de9c0_f6d8a94b6d8b1e0c_0d72ba6bffd64929_ca4da9e8a089bb02nat, v3);
    let v4: nat = 0xd1f8d6c302c34ff_82a0c1f1f5339bf4_bb6b6f89fc07c336_87f121380349e5bcnat;
    lemma_power_doubles(b, 0x1a9b59999999nat, n, v3, 0x29f2e988b3af4fa_ed76ec3a7426bb64_862fd08d57fdab0a_ea5d7fb9675a6d08nat, v4);
    let v5: nat = 0x7e82deb5e75435d_bab018b2cc81e9ee_b0d83bab18e9e648_5477d6d26488babenat;
    lemma_power_steps(b, 0x3536b3333332nat, n, v4, 0x109bb8a9bccc988_f5ca381905c40540_549caa9f43025701_22afa677a384821anat, v5);
    let v6: nat = 0x5f93e4c7e7287dc_87c624fc59daaadf_8bd006f801e75b64_2465d0868942d09enat;
    lemma_power_doubles(b, 0x3536b3333333nat, n, v5, 0x35948d59985092f_4f4eef8711c5bdd6_fc85904acffbb4d3_d748521cd8d5d466nat, v6);
    let v7: nat = 0x2592de9c93f0eee_c6d11de4b3b70892_6ade0bebf4a8c7cd_b8ed7f46f2c2023bnat;
    lemma_power_doubles(b, 0x6a6d66666666nat, n, v6, 0x1e94e3c1d615726_07543bf70c5f3426_29128c3f89085dc1_64ccbada64b71f49nat, v7);
    let v8: nat = 0x7926eca789cba19_ada21af9de356eb7_6f0f7c197ff2ef52_2c140ef00832b687nat;
    lemma_power_doubles(b, 0xd4daccccccccnat, n, v7, 0x4b9ea64b9cd606_e237bd84d2003226_876081bdae0ad6ac_a1f21292e53e4312nat, v8);
    let v9: nat = 0x11aafb46f83005df_4b54b10766af71d8_7fbcd4b8432e8548_00d8669f81550bb4nat;
    lemma_power_steps(b, 0x1a9b599999998nat, n, v8, 0x99534dfecc786f_8da117e6d4f07a5f_fda824d5caeed999_2ff8aaf784608172nat, v9);
    let v10: nat = 0xd49aad30f3abb5f_9f2e4c805379120d_d7d05fe0866f742d_ebe67f4c2a5ea153nat;
    lemma_power_doubles(b, 0x1a9b599999999nat, n, v9, 0x10b852e17d07a182_3682fe2354da5d81_145fc1f55eb259c5_4c7ccc5803b2553dnat, v10);
    let v11: nat = 0x423bdf370d8a3e7_1309b43ad60e01ca_55a89e64fdc0b9a8_39c833b43995cdd5nat;
    lemma_power_steps(b, 0x3536b33333332nat, n, v10, 0x10d105319876762_14f4535a57a2fe80_6e3d3924061c3c71_e6771cc74577a0c9nat, v11);
    let v12: nat = 0xfc1ce68a20eb726_11223838540e668e_30b2e31a6ffa7eb8_e31f4fe457fa0afenat;
    lemma_power_doubles(b, 0x3536b33333333nat, n, v11, 0xeafa60d1bc5263_1562229379076579_473f5ffb6e7f5ab8_4d488ef5c176c83bnat, v12);
    let v13: nat = 0x3b62d0bedf00413_6ec2d8171edbf369_788950c659d1f581_5b0bff54ea602699nat;
    lemma_power_doubles(b, 0x6a6d666666666nat, n, v12, 0xd4c87796af47e80_039ad5936b19dfa3_04d714998e9bd51f_e00fc0cd3230ad6bnat, v13);
    let v14: nat = 0xd8a17a7f8f8acc6_9e3ebd4f00b54a7c_136c344c94b322ef_878159cef8a37acfnat;
    lemma_power_doubles(b, 0xd4dacccccccccnat, n, v13, 0xbce6bf008d1f5d_3002d5b2e6851254_add249449243fba2_3123b345b3ee4ca2nat, v14);
    let v15: nat = 0x862b132c8983c64_5599b720fae5f3fd_365f385b614273d0_68dd033ae441a6danat;
    lemma_power_steps(b, 0x1a9b5999999998nat, n, v14, 0x11228de45ea3f19_f49eeec0fb51fd81_80b0293494be5a7d_5bba056fb095c21cnat, v15);
    let v16: nat = 0xd88227d532e0725_f86cc9b6f15b71ef_a616664f4ceb4937_3ca76a0ddf202f78nat;
    lemma_power_doubles(b, 0x1a9b5999999999nat, n, v15, 0x3c432dd1c6e8b3f_3d9fed79826eb1e4_93ce4406da8aa866_fce84ec49853422cnat, v16);
}

/// Modulo the field order: the root to the power `(x + 1) / 10`.
proof fn lemma_modulus_root_t()
    ensures
        power(0x17a09f02f70064e_e78e2edff8bd7f3f_a1d66e7dc0531396_4256f4dc41db4d2anat, 0xd4daccccccccccdnat, 0x12ab655e9a2ca556_60b44d1e5c37b001_59aa76fed0000001_0a11800000000001nat) == 0xccdff9f54e41a68_ee6fb18c4481f37a_803bbcb10d7f80b3_a1b02d8ebd4f8eb7nat,
{
    let b: nat = 0x17a09f02f70064e_e78e2edff8bd7f3f_a1d66e7dc0531396_4256f4dc41db4d2anat;
    let n: nat = 0x12ab655e9a2ca556_60b44d1e5c37b001_59aa76fed0000001_0a11800000000001nat;
    lemma_modulus_root_t_part_5();
    let v0: nat = 0xd88227d532e0725_f86cc9b6f15b71ef_a616664f4ceb4937_3ca76a0ddf202f78nat;
    let v1: nat = 0x6c1efcacc8dfb64_6c499f4f3d77d574_21e390be6ffaf540_77a77ceabaea91d7nat;
    lemma_power_steps(b, 0x3536b333333332nat, n, v0, 0x112013a27f6ff96_cee4e1230e59e3d5_7f345c1b3a6602f7_761ccd2ea24c4fd9nat, v1);
    let v2: nat = 0x13a059383636ef5_9fb43e23bb2d006f_0eb67f783f40a29e_ec7bcb15c7907481nat;
    lemma_power_doubles(b, 0x3536b333333333nat, n, v1, 0x27229bab0aea018_82e8b743eef58208_faafce122761decc_0082ccd19490ce10nat, v2);
    let v3: nat = 0xc61670dc80fde33_0725ff5a2cb31c4a_e920a48e252c4056_70f62911197a9138nat;
    lemma_power_doubles(b, 0x6a6d6666666666nat, n, v2, 0x14a1daf5594aad_2bc0fbfaf726ba60_934e61df5436767c_92cbf0bcbaaa97c9nat, v3);
    let v4: nat = 0xcd96872867e7c3b_c72c41cc0cd1f92b_7329f7665e7419fc_dc2386bd4bc32185nat;
    lemma_power_doubles(b, 0xd4daccccccccccnat, n, v3, 0x835c0e9ec9fd512_8ce913c84a503459_25ed62f5e53f5978_e1085dbe5ffd5abbnat, v4);
    let v5: nat = 0x5e4f5fb77fc4766_689acea6028518a5_19cd183e24540bd0_0648004c97061f22nat;
    lemma_power_steps(b, 0x1a9b59999999998nat, n, v4, 0x1042f30020a9efa_297f19a8b52ff176_93f847f88d3ca5a2_b208f847f9d961b0nat, v5);
    let v6: nat = 0x6dd7bb18c96763a_c8ebbb605d102428_5fdc9e1da5f37345_4ae3820d2d8b4c44nat;
    lemma_power_doubles(b, 0x1a9b59999999999nat, n, v5, 0x1dc698ac159ac89_16ca451b1082ddf2_6f3f8a898e96fae1_2297330267d5f440nat, v6);
    let v7: nat = 0x2ec4ec96b52f6ad_800e8259f5cd9421_28f52f72254647c2_67b4fadb85e29b1cnat;
    lemma_power_steps(b, 0x3536b3333333332nat, n, v6, 0x8b0342170f25b8_226a212330243bd5_a4d730c82cfb3148_35ff00f85b145c0cnat, v7);
    let v8: nat = 0x5a2d6cc33a32ec8_47f4c1b839281246_cdc5d039a9b72c0e_cc7f1de923672b1dnat;
    lemma_power_doubles(b, 0x3536b3333333333nat, n, v7, 0x7529855ce472c5_08b3a3e2738e5e17_e4eb02bb76d061e4_ac71b1c03003bff3nat, v8);
    let v9: nat = 0xd5aac6bd920718e_b3cbf0c24f3e581c_e3c068ad16acf627_d0a1194fc6c3c417nat;
    lemma_power_doubles(b, 0x6a6d66666666666nat, n, v8, 0x1b393274d06713f_9654adfb6394a031_97273a27d5cad048_c1b052d7dfd4fd32nat, v9);
    let v10: nat = 0xccdff9f54e41a68_ee6fb18c4481f37a_803bbcb10d7f80b3_a1b02d8ebd4f8eb7nat;
    lemma_power_steps(b, 0xd4dacccccccccccnat, n, v9, 0x10e68af091dbf03_726d439a0dc8e8ac_866cbd5c4b6e3ba6_47e7a6575776880fnat, v10);
}

/// Part 1 of `lemma_modulus_root_x_t`.
proof fn lemma_modulus_root_x_t_part_1()
    ensures
        power(0xcf2493fb395ca90_970db6fae4fed2f5_c2f93037fb602681_ab265b0f9428da11nat, 3404, 0x12ab655e9a2ca556_60b44d1e5c37b001_59aa76fed0000001_0a11800000000001nat) == 0xa79c6552284048a_8f3ae4cfa2b16411_d796351b6642c1ec_43677a233ff0beb1nat,
{
    let b: nat = 0xcf2493fb395ca90_970db6fae4fed2f5_c2f93037fb602681_ab265b0f9428da11nat;
    let n: nat = 0x12ab655e9a2ca556_60b44d1e5c37b001_59aa76fed0000001_0a11800000000001nat;
    lemma_power_steps(b, 0, n, 1, 0, b);
    let v0: nat = b;
    let v1: nat = 0x34f63b743379d17_5a228a86fa5a6783_4618eb582c4f83bb_1480cd68cf35a139nat;
    lemma_power_doubles(b, 1, n, v0, 0x8fa4d29a5bddf73_bfd9f25065052030_d00ad913c689fa74_cfc0193db7db53e8nat, v1);
    let v2: nat = 0xbe219655d14a9e9_d31585948f8635a6_23f07d665950cf48_d26bbf6ee3c236aanat;
    lemma_power_steps(b, 2, n, v1, 0x24b9feeef6bd323_0041cb086bd1185e_46021dfdfbe9feb5_5b03bbe7af00081fnat, v2);
    let v3: nat = 0x10648b0930b73c32_d6ffbfccc0e92d86_689ff8c37891ddd5_a4bf33be993e0107nat;
    lemma_power_doubles(b, 3, n, v2, 0x7904e0a068da8eb_c5552322b59425f0_10a04d69dae148c7_ecdbf2a1c81627ddnat, v3);
    let v4: nat = 0x253882f29375a4e_f487e779d7ff982d_d8cc94c554be89b5_fdacdd74ba59a90enat;
    lemma_power_doubles(b, 6, n, v3, 0xe64c513324b25bc_de15cd7dbfaee1f6_68a17f2f6747a05f_430e1f2e230b6523nat, v4);
    let v5: nat = 0xbc2dd04a7c7b95c_5322eead621c614b_f56caaef6f5f3890_71648e4c7360a1fanat;
    lemma_power_steps(b, 12, n, v4, 0x19cf92fec22b518_7cc1ab5108dc9f9f_b4516c9852e54728_e0e362b4c8b983f4nat, v5);
    let v6: nat = 0x2ce26d5593f5eab_8b005f6cdca40c20_b8677af91204e8a9_72e092a2a5483d15nat;
    lemma_power_doubles(b, 13, n, v5, 0x768bedd73cc9e23_17184e86eadf0d15_8a3b0744d20b84d9_2dfa67cdd8b42b0fnat, v6);
    let v7: nat = 0x1253e9cc90aed6e6_dfcfacdfbb689f34_87388fa92d78df4b_185a4c5a82722834nat;
    lemma_power_doubles(b, 26, n, v6, 0x6be8cfd68c65b3_e13cbab7bf32e767_a0016ae50bcffd0d_4c9da958f9f0db85nat, v7);
    let v8: nat = 0xf759befd53e7fe7_7f4995801a90a605_060ccfea2251f6b7_8e4d8e3d1b32c99fnat;
    lemma_power_steps(b, 52, n, v7, 0xcb59ef9962553db_62b90c077e9cf246_0704cf94caa10177_f4e84efb1cbe29d5nat, v8);
    let v9: nat = 0x45c271d6a88d586_9ef4f307c129067c_3c3d0a53bd2e59ba_0a6cb6c6768f1af1nat;
    lemma_power_doubles(b, 53, n, v8, 0xccd1f92029c16e3_1b6fbb3f1b5185ee_80eeaa5f418daf26_8645839a7457f5d0nat, v9);
    let v10: nat = 0xec79e586ff91ee_789986cd946ad6fb_5727bd76c480d7d5_21a02d81d093c438nat;
    lemma_power_doubles(b, 106, n, v9, 0x104a8f1ab47dbe0_bf482d97b41af8c8_8ba5b3b5e7ae2302_a3bee81f778012a9nat, v10);
    let v11: nat = 0x56b060da2e491e9_dde7a1c51efb16fd_f80ca31914b47d49_a3561c7c99ddf463nat;
    lemma_power_doubles(b, 212, n, v10, 0xbb34f2e9480de_debdd4b1c153942c_2883fdc0bf043b4d_00e6481954d7d7ddnat, v11);
    let v12: nat = 0xd826ec1fb78fa07_62420d6f19d5a363_3068b1f019bd13f0_ad0f99eaff63b4c3nat;
    lemma_power_steps(b, 424, n, v11, 0x3c1d5ea55c0967d_2fd57d5a2a0f71a2_984322c4a282b231_33314426a5edd3d0nat, v12);
    let v13: nat = 0x87aac32a00cedc0_ed8a3abe0223abe2_37071ea07239d22a_4df93b54fb2b2187nat;
    lemma_power_doubles(b, 425, n, v12, 0x9c69107caac2894_90dcd6559c6e1ebf_bbca7f34abbce638_395d1818cd49ab02nat, v13);
    let v14: nat = 0xbdfa09d8d909207_94e9d8e246453792_bab928c2f8f8a1f5_e93b94432d603acfnat;
    lemma_power_steps(b, 850, n, v13, 0x5e142618e1e3f16_1d098763896731ce_2813d2ca386b0386_4893dc4c8421f528nat, v14);
    let v15: nat = 0xf7a6ea81a11310f_1480f7e431fc186c_a9aaae7411f0edd8_ec907c09d9d75c8dnat;
    lemma_power_doubles(b, 851, n, v14, 0x78d28d54d90d4e3_fcd25d5341bde987_db4875f11aaaa012_b1c49d2914eb16d4nat, v15);
    let v16: nat = 0xa79c6552284048a_8f3ae4cfa2b16411_d796351b6642c1ec_43677a233ff0beb1nat;
    lemma_power_doubles(b, 1702, n, v15, 0xcd51da6c7774ebf_efca473946415d14_68569fd91c2e2425_05706fda605ae6f8nat, v16);
}

/// Part 2 of `lemma_modulus_root_x_t`.
proof fn lemma_modulus_root_x_t_part_2()
    ensures
        power(0xcf2493fb395ca90_970db6fae4fed2f5_c2f93037fb602681_ab265b0f9428da11nat, 0x3536b2nat, 0x12ab655e9a2ca556_60b44d1e5c37b001_59aa76fed0000001_0a11800000000001nat) == 0x3ab3aa01ac48f5f_e847fb5c4e49b3ea_208c7617d24c2de7_d7f0d50f656fc2b3nat,
{
    let b: nat = 0xcf2493fb395ca90_970db6fae4fed2f5_c2f93037fb602681_ab265b0f9428da11nat;
    let n: nat = 0x12ab655e9a2ca556_60b44d1e5c37b001_59aa76fed0000001_0a11800000000001nat;
    lemma_modulus_root_x_t_part_1();
    let v0: nat = 0xa79c6552284048a_8f3ae4cfa2b16411_d796351b6642c1ec_43677a233ff0beb1nat;
    let v1: nat = 0x10ac1ad450e90227_cace606c8460b70e_75e3c4ac1e32e3f0_8ebba99a98968ca2nat;
    lemma_power_steps(b, 3404, n, v0, 0x743af3e104dd11c_6902bed2f2d8ee74_ec0d906ab119efc9_712a3a6ac870d71fnat, v1);
    let v2: nat = 0x28f0d1941425795_bf174e5ae41fed0b_6367de8406b3bcad_4b4ba43da339bf6enat;
    lemma_power_doubles(b, 3405, n, v1, 0xee382b930f7ec49_38bc60b259a65de3_5b636bd774e8d290_87219233d7dfd716nat, v2);
    let v3: nat = 0x11e8ba1cd2089896_ed8a66ad60e3a9e7_2c7df08112ca23af_e280552d839543f1nat;
    lemma_power_steps(b, 6810, n, v2, 0x1c63f4525bf517c_d5c9f4e91ba8b64a_820c66685c48543a_19c7c50d01741e5dnat, v3);
    let v4: nat = 0x107f20a040cf607e_28b0742bdd375f90_5961d872e390a383_41f03be2c12d5ef5nat;
    lemma_power_doubles(b, 6811, n, v3, 0x112dfcb06cfe1941_3234102ea37068b5_545b3070501105bc_02a7cb680d64a9ecnat, v4);
    let v5: nat = 0xc52bf26caf14cc_0a5815acbb0cbc22_5f596620a0028a1c_cbb2fe87171a13acnat;
    lemma_power_doubles(b, 13622, n, v4, 0xe939a35e9afbe9c_17f5f271d4302607_e87c0ab1af561cf9_e64f8944d840c2cdnat, v5);
    let v6: nat = 0x9adc6bff6c51329_10ca039832698581_8b70eb5bf54214bd_bb7c461b4a57454fnat;
    lemma_power_steps(b, 27244, n, v5, 0x88bab173c6a458_20318b532076dc15_9ae7532b7c932618_902e250ff604811dnat, v6);
    let v7: nat = 0x7bdadc2d60b260_95fc4ddca949891e_ae057311601c2342_0c041e1cf38a4b8anat;
    lemma_power_doubles(b, 27245, n, v6, 0x5048cf0c6c3b8e8_fa6bf45d0afbc7da_6cfe5f1b7b21a0f6_58b7c65ee6eb62d7nat, v7);
    let v8: nat = 0x9a3d2314d78d356_cf80f014791e21c7_3ebd4d9d588de6dc_798ec5681ceeb31bnat;
    lemma_power_doubles(b, 54490, n, v7, 0x335a99ce3513c_45577cf6ba864009_3d917bd07c10d6d7_2ee86ee566237349nat, v8);
    let v9: nat = 0x5b0c99e15e6be5d_872e66a44bdbfb08_0d09e0c942d829af_d352a4c0879eb157nat;
    lemma_power_steps(b, 108980, n, v8, 0x6af515776977d70_ebd58842b439235d_1ecffdb1c0c9319c_1d7cbc3940f83174nat, v9);
    let v10: nat = 0x11c124ac9e5e0fc0_5e00b2187ffc60ed_bcf78609fce9d877_6756c1ae1a1739f1nat;
    lemma_power_doubles(b, 108981, n, v9, 0x1bc098b9b10aa3b_30f283fe75536d9c_aebbd51b830351dc_030f7a3b0a2631a0nat, v10);
    let v11: nat = 0x106a9d5a71f16701_8c5eb755275f1ed6_fe681a783b50b252_94514fff137aae61nat;
    lemma_power_steps(b, 217962, n, v10, 0xc4fd7c815c5d174_12a1234c0c160dc0_58f54be26b117817_d0746007d10f64a0nat, v11);
    let v12: nat = 0x7aa057b0623525b_d60eeab4c547494d_9f5c3b6945fa7db5_61db6f09e0eff2e6nat;
    lemma_power_doubles(b, 217963, n, v11, 0xe6f70952d4f5e49_c24d65994b37de2d_962b3562c717e246_2690c4e1304c0ddbnat, v12);
    let v13: nat = 0x56fa4e07f1236dc_307fe566c48311a8_4b96667edc733db7_9d2ad38aa6ebafcenat;
    lemma_power_doubles(b, 435926, n, v12, 0x325713ef851cd85_ce87831dcda3ab8f_423cf16c3555a598_33df7e9b48fff6d6nat, v13);
    let v14: nat = 0xbafcc4dbd701947_ab52543be3799b7b_06184b5afcd85511_58f4e5b0172734e2nat;
    lemma_power_doubles(b, 871852, n, v13, 0x19536842ec5310b_7efb043d3f9095da_ea13992b2ae72dcb_a7edb9634dc814e2nat, v14);
    let v15: nat = 0xa28129b1ecb858d_6e845d873445dc18_74b7c97a4fba8a0b_0a3728c48b55d35cnat;
    lemma_power_steps(b, 0x1a9b58nat, n, v14, 0x81aabceb2ac1178_718109a89f4cd733_1260834c07dc38b4_c955c3954c9d23a6nat, v15);
    let v16: nat = 0x3ab3aa01ac48f5f_e847fb5c4e49b3ea_208c7617d24c2de7_d7f0d50f656fc2b3nat;
    lemma_power_doubles(b, 0x1a9b59nat, n, v15, 0x5867bd700b9b75c_d1e80f851ea9fc5c_dba22aabb2e18c6a_118a601c8c29065dnat, v16);
}

/// Part 3 of `lemma_modulus_root_x_t`.
proof fn lemma_modulus_root_x_t_part_3()
    ensures
        power(0xcf2493fb395ca90_970db6fae4fed2f5_c2f93037fb602681_ab265b0f9428da11nat, 0x1a9b59998nat, 0x12ab655e9a2ca556_60b44d1e5c37b001_59aa76fed0000001_0a11800000000001nat) == 0x96ce43e1ed3ca99_711db3b06afd6464_ba3c676160ce3c49_0c53e166c68054b7nat,
{
    let b: nat = 0xcf2493fb395ca90_970db6fae4fed2f5_c2f93037fb602681_ab265b0f9428da11nat;
    let n: nat = 0x12ab655e9a2ca556_60b44d1e5c37b001_59aa76fed0000001_0a11800000000001nat;
    lemma_modulus_root_x_t_part_2();
    let v0: nat = 0x3ab3aa01ac48f5f_e847fb5c4e49b3ea_208c7617d24c2de7_d7f0d50f656fc2b3nat;
    let v1: nat = 0xf604ba9e8cfedee_d9bfd9205949caec_6c0c255cdc10a9fb_93982d923503066dnat;
    lemma_power_steps(b, 0x3536b2nat, n, v0, 0x28b4fa472e87a8c_934597175330cef8_414e98d48827eb82_39a494579b2d5576nat, v1);
    let v2: nat = 0xec6ec3406ad9172_c1698e934cb67c45_b8a81d2879cd5f91_dcf348062e99714dnat;
    lemma_power_doubles(b, 0x3536b3nat, n, v1, 0xca9ebb306e05ccd_92d2a5cbdf8a15c4_101f93e6f3357ea7_15c29f001a1dd91cnat, v2);
    let v3: nat = 0xcac22efb4b1e6a3_78e6e9e99e69aa4e_09e8cbfa5d2c648f_3b20924b5fd0563anat;
    lemma_power_doubles(b, 0x6a6d66nat, n, v2, 0xbb2352791f7895c_a23c029cd710bd75_d9063552637c305a_9f1f0e00ec5ebaefnat, v3);
    let v4: nat = 0x123d6f202c58c3b4_4e744f903f26d09c_c0be8bca388f4393_71032f3f0ecfa880nat;
    lemma_power_doubles(b, 0xd4daccnat, n, v3, 0x89a0a41e3b8db1b_099f6502c6ccda2e_0e052b78867a61d6_868fc848387b5ca4nat, v4);
    let v5: nat = 0xcc9d3861d76cb44_64db18388bc350c9_f9f9c048e8df3926_879bdfa1a67f5e11nat;
    lemma_power_steps(b, 0x1a9b598nat, n, v4, 0xca608613c840e41_0c78388deee69327_f2e0ae4701f38636_7fba33877ec7d26fnat, v5);
    let v6: nat = 0x3cae0a61412421_c34f12bc3c8b0212_2435ccf8ab03783e_d1ff39086ce5315dnat;
    lemma_power_doubles(b, 0x1a9b599nat, n, v5, 0x8c287a8098a6132_2ec6b339ee13cb28_6161e22656a5cd47_6d1023b616894bc4nat, v6);
    let v7: nat = 0xa17ffe0466846d6_06839ff059f7468c_1be3b1ba4e3e59d5_20b39cc9fa1745fdnat;
    lemma_power_steps(b, 0x3536b32nat, n, v6, 0x2a14203a0fe2fa_3761dc61da957993_a49587d61b02c434_dd15d14ce7b23330nat, v7);
    let v8: nat = 0x121177e26993726f_27998f12c319e9ca_de4a896358e67a81_341ebf679b327c9bnat;
    lemma_power_doubles(b, 0x3536b33nat, n, v7, 0x5750cb632c0ac27_41bd4444f3b06577_fc179962519c2513_e3d3f6b22f65df6enat, v8);
    let v9: nat = 0xf60072535039e63_fc284db08e5ecafd_649120a6439d8c8b_61ac67b7beea86bdnat;
    lemma_power_doubles(b, 0x6a6d666nat, n, v8, 0x117c7f8336e14c17_2d5268e18e36d330_17bb93add8a38ba3_58e353dadc47ff1cnat, v9);
    let v10: nat = 0x10e57b1dca8d75d9_d62d9c256ec41311_7693bd8f62715f48_4089fe3e51da013fnat;
    lemma_power_doubles(b, 0xd4dacccnat, n, v9, 0xca97ad712f82ccb_07aac58a81e53a57_991e47c827d1b74b_5f78b0d2d294664anat, v10);
    let v11: nat = 0x94a461f497787d0_1862de811b623000_c61309a9fe2fa33c_915fcb3cb1741682nat;
    lemma_power_steps(b, 0x1a9b5998nat, n, v10, 0xbb78474cc6b3e87_34895aea29b24927_feeef760534ce366_0617f31400eda4adnat, v11);
    let v12: nat = 0xa6e945ff9394ee_2e295761acb6986c_6343f28216d25736_3296144b4f51260bnat;
    lemma_power_doubles(b, 0x1a9b5999nat, n, v11, 0x49f73c534f9f698_c059ca5e73b8f790_7ecffd4ac5270265_637ee068dc7973f9nat, v12);
    let v13: nat = 0x9b4f7e2f0509cfc_3a7b2c2c86a6104d_217572e0a6f8ec3e_198099436ec101d5nat;
    lemma_power_steps(b, 0x3536b332nat, n, v12, 0x73bebd5f0e89dc_efc8f52d7edfdad2_afcd21a2d1ab53d8_438e53993dbfe2e6nat, v13);
    let v14: nat = 0xaf262644ac1fb0e_b778eca90137e95e_91250b414f66ffb5_58eb170cab98f80dnat;
    lemma_power_doubles(b, 0x3536b333nat, n, v13, 0x50c04b51956d09e_5a6c6d18bcae12ab_d0d3118bbc321d49_73b4e7882394632cnat, v14);
    let v15: nat = 0x10fecbc42923ad18_2ab03e789f2e34e3_b92c0ac8da52f1db_c85267576170ac86nat;
    lemma_power_doubles(b, 0x6a6d6666nat, n, v14, 0x66b2b689d25dc83_738d370aa67f9bb3_ceac5785b4073a03_2f1666a97c588423nat, v15);
    let v16: nat = 0x96ce43e1ed3ca99_711db3b06afd6464_ba3c676160ce3c49_0c53e166c68054b7nat;
    lemma_power_doubles(b, 0xd4daccccnat, n, v15, 0xf78a19fc00c3eef_e2f7fe57d9f879df_a48f70253a96c4b5_89104a022f04016dnat, v16);
}

/// Part 4 of `lemma_modulus_root_x_t`.
proof fn lemma_modulus_root_x_t_part_4()
    ensures
        power(0xcf2493fb395ca90_970db6fae4fed2f5_c2f93037fb602681_ab265b0f9428da11nat, 0x6a6d6666666nat, 0x12ab655e9a2ca556_60b44d1e5c37b001_59aa76fed0000001_0a11800000000001nat) == 0xadb8d2de47327a6_4ba54db270649bde_a976919ca1ff67c0_764fa6be5946042bnat,
{
    let b: nat = 0xcf2493fb395ca90_970db6fae4fed2f5_c2f93037fb602681_ab265b0f9428da11nat;
    let n: nat = 0x12ab655e9a2ca556_60b44d1e5c37b001_59aa76fed0000001_0a11800000000001nat;
    lemma_modulus_root_x_t_part_3();
    let v0: nat = 0x96ce43e1ed3ca99_711db3b06afd6464_ba3c676160ce3c49_0c53e166c68054b7nat;
    let v1: nat = 0x9e4335c0272eeed_7a033b68b847d7f2_a58a5fd36f2a8924_467f0c44e24c849cnat;
    lemma_power_steps(b, 0x1a9b59998nat, n, v0, 0x6893a0a938c6c06_f886ab5c21620936_ad244870e2952155_baa129579cf4f18bnat, v1);
    let v2: nat = 0x9a56acc06f27e97_30663788e8592d1a_f16e7ef92e740e33_b4d70ccbd2ad85f7nat;
    lemma_power_doubles(b, 0x1a9b59999nat, n, v1, 0x53d99b9e0797456_77c9af2f57b84760_e186f1ad2bff2758_39dbb7169ea3b919nat, v2);
    let v3: nat = 0x126f4770c84826f2_bb909ed91c86cb39_a56ecc22bfa1fbed_b59ce3d2ac015014nat;
    lemma_power_steps(b, 0x3536b3332nat, n, v2, 0x6b06cb0875b87e3_4625bc7069e34357_76ce70abebe6102d_d57cea26d030eb53nat, v3);
    let v4: nat = 0xe044cc0dc04d4b4_67f441f28061f3b6_89899f2cd074e02d_b8e12797101c9b05nat;
    lemma_power_doubles(b, 0x3536b3333nat, n, v3, 0x1233eb176a78cd36_e90785ada753ecba_23c4ce8a9bd7af6a_70baf4d58917e68bnat, v4);
    let v5: nat = 0x99ba030aefc502c_984f449d43dea93b_63b913341e63ff14_2590a0c1b3b1a301nat;
    lemma_power_doubles(b, 0x6a6d66666nat, n, v4, 0xa860add31e97387_a6252bbc1568c449_00d58fa35c01ef54_81135bb733456b18nat, v5);
    let v6: nat = 0xdb13840b392bf46_aaa818a4bbce1465_1f6c195784e2080e_c91cbe740750c614nat;
    lemma_power_doubles(b, 0xd4dacccccnat, n, v5, 0x4f1ccc429710519_39ee7cce5aeefbc3_8667ccb1abe06ccf_dd0aae442ddb7fednat, v6);
    let v7: nat = 0x9e5f14be332cb16_8c888571ae05ccae_51e633c33fbed22d_30ae1e8dda64b1f8nat;
    lemma_power_steps(b, 0x1a9b599998nat, n, v6, 0x97eb47375c02336_47095df0206cf133_0064030596379d2e_b817e3afedc57d5cnat, v7);
    let v8: nat = 0x1178e5b711cf8509_9ae8c6c3368a0e66_c745b9fc21bf6e4a_3a83caf699da7190nat;
    lemma_power_doubles(b, 0x1a9b599999nat, n, v7, 0x53f726af3c58cb0_0470bc949740c2cb_4848f805b633e9f7_288606ef4b9e6eb0nat, v8);
    let v9: nat = 0x7bc58b35970fc55_5878df89b618ab8e_563851c16f7bd84e_3d6b1dbe5da08659nat;
    lemma_power_steps(b, 0x3536b33332nat, n, v8, 0xc1dbe65e3b689df_d8330e1ff1179f33_3df561d417cb53c1_fd6e06dedd15a437nat, v9);
    let v10: nat = 0xab74a49bcdc0e66_626f2835d406bc8b_5a2ec74a53726652_80af5762ce9e0323nat;
    lemma_power_doubles(b, 0x3536b33333nat, n, v9, 0x3348ee1621212a3_2e1ab2b63e9d3fa9_133797a5e8a44660_3e1744fe112347cenat, v10);
    let v11: nat = 0x5ebf3c8a6ecb6b3_b909c6e639c7ac96_0288a97497054bd6_21d328fcf901ecd4nat;
    lemma_power_doubles(b, 0x6a6d666666nat, n, v10, 0x62699d287b0f19c_668cd69bf610b4b4_2743466bb11eac22_55a636633a3be9f5nat, v11);
    let v12: nat = 0xf14d4148cb9c223_e1c6e90b45a21599_f34c10c2bd42995e_e471b70dcd83e53cnat;
    lemma_power_doubles(b, 0xd4daccccccnat, n, v11, 0x1e0d651e5174897_4a6e2e6e6c98698d_2a61b140063e2788_8449890a4f3baa54nat, v12);
    let v13: nat = 0x44ca47a69112ac5_00fbb46403d42fe8_360edc6e52cfd3b1_612dfc2f291bee1fnat;
    lemma_power_steps(b, 0x1a9b5999998nat, n, v12, 0xa754d8317fa2a84_e6a44ad7cc8a23db_15cab31d85fa2340_593c8c644f3b62ddnat, v13);
    let v14: nat = 0x402d2c0768e6a3c_d761d89a394cb145_a2b79d1ee885ae34_9125412b515a421bnat;
    lemma_power_doubles(b, 0x1a9b5999999nat, n, v13, 0xfd774526cc0a76_5d2ca3236a0837f1_412cb5336556ad14_d0902b88b4ad65a6nat, v14);
    let v15: nat = 0x304259b9b2483b8_a8464818f26e9393_d64b690dc4a66037_af1be736525c9e32nat;
    lemma_power_steps(b, 0x3536b333332nat, n, v14, 0x2c80db7ed7c740f_7bf4dc376b434081_f860bc30f08afbbc_417f2cd7e124c399nat, v15);
    let v16: nat = 0xadb8d2de47327a6_4ba54db270649bde_a976919ca1ff67c0_764fa6be5946042bnat;
    lemma_power_doubles(b, 0x3536b333333nat, n, v15, 0x7cbefe27e1e46c_2888148edb16794b_651913b3310b4558_d3574933c46bbd99nat, v16);
}

/// Part 5 of `lemma_modulus_root_x_t`.
proof fn lemma_modulus_root_x_t_part_5()
    ensures
        power(0xcf2493fb395ca90_970db6fae4fed2f5_c2f93037fb602681_ab265b0f9428da11nat, 0x3536b333333332nat, 0x12ab655e9a2ca556_60b44d1e5c37b001_59aa76fed0000001_0a11800000000001nat) == 0x24c8f6c9f6d0eb3_cc67bcbd62d2c4c4_203d90ab7681021c_15371e5d189c035bnat,
{
    let b: nat = 0xcf2493fb395ca90_970db6fae4fed2f5_c2f93037fb602681_ab265b0f9428da11nat;
    let n: nat = 0x12ab655e9a2ca556_60b44d1e5c37b001_59aa76fed0000001_0a11800000000001nat;
    lemma_modulus_root_x_t_part_4();
    let v0: nat = 0xadb8d2de47327a6_4ba54db270649bde_a976919ca1ff67c0_764fa6be5946042bnat;
    let v1: nat = 0x126756de6b752e68_4e3bea2c2965291c_69c83a286c8ca3f3_69d023c362126498nat;
    lemma_power_doubles(b, 0x6a6d6666666nat, n, v0, 0x65080b022aae5e3_5e4e808597859512_4865bdda0f73430a_d130121ccb82faa1nat, v1);
    let v2: nat = 0x107b5ccc56e6608c_4689580085ea9779_e832ae021772d55f_4cd3bfab4b208a81nat;
    lemma_power_doubles(b, 0xd4dacccccccnat, n, v1, 0x1224407517f60a93_3f8f0b4f82518753_2e8ba9d8f21ba919_25b6a63b61c68fbfnat, v2);
    let v3: nat = 0x11497666e9b47e9_cf61abf37d0c0350_42e0a7c05a496804_533d1795c6be60a7nat;
    lemma_power_steps(b, 0x1a9b59999998nat, n, v2, 0xb6dede4b5494ac5_10d9d220af7fe8b7_34f29c0ea7767005_e008067b2484abeanat, v3);
    let v4: nat = 0x46025b0af2e4eb0_5a966dbb0728e943_c3485eb48b1b214f_ed1f64f63cad08b5nat;
    lemma_power_doubles(b, 0x1a9b59999999nat, n, v3, 0x1001bd3e8b0611_6e59afb79474578e_8245ab9eae2c8326_03a22a85b3b4a43cnat, v4);
    let v5: nat = 0x1030c1cdfa7aacf9_e94ad8872e743184_bc333fd5d21e218b_dd9320601478fd75nat;
    lemma_power_steps(b, 0x3536b3333332nat, n, v4, 0x308c4f5a8bf5743_567d8197e7be4b26_594b7c7465f58766_c34ba1524cb6b890nat, v5);
    let v6: nat = 0xceaf6f379cc0316_6e8c72ed0ccc8303_66c517399c798771_9bd58e6010dd134fnat;
    lemma_power_doubles(b, 0x3536b3333333nat, n, v5, 0xe0a63ba3c83e137_6a2a86e3edeea4fd_8d0ca2c237cb376a_1967ea28cfc3642anat, v6);
    let v7: nat = 0x11567a97dd48a5c7_24ca9d1443285734_89f7714b23b14de9_b6dee617bc30b358nat;
    lemma_power_doubles(b, 0x6a6d66666666nat, n, v6, 0x8f0288f3226773a_c93d26bdb78f0016_4022212989fa5379_83d01a7c7baa1f09nat, v7);
    let v8: nat = 0x66efa9bea52d84d_ccad8893ac97d0a1_9f1fed6d3b67ced9_e860912ef6de411bnat;
    lemma_power_doubles(b, 0xd4daccccccccnat, n, v7, 0x1019e12d6e289fe9_a51c3a74034b16b4_f2156f84d176b2b8_f991d94e07c5ed25nat, v8);
    let v9: nat = 0xa518fc41fa6bf4b_45f1767ce85e1a15_5ae46b22beba0333_33e59a55f1d1e0abnat;
    lemma_power_steps(b, 0x1a9b599999998nat, n, v8, 0x4761a34c74e148c_d1364c66304cfd86_5dcee5b79bde74c6_0d3181f47e997020nat, v9);
    let v10: nat = 0xee885c78edc63db_a1daf3185d2f8fc4_9d9c1e88ba5b4fc5_7f0940857c2b381anat;
    lemma_power_doubles(b, 0x1a9b599999999nat, n, v9, 0x5b3fc392c0ca944_32a772cd86c7d161_3e249fb5163d5b8a_01e0021b16367a1fnat, v10);
    let v11: nat = 0x62839f8c5084507_31e30e118dc47a50_401b59d5e10e06a8_3907a8607cea6561nat;
    lemma_power_steps(b, 0x3536b33333332nat, n, v10, 0xa56942911fffb7f_09792357dc49a930_3c20b6fcdb9727f1_f96bb6ef5bca7859nat, v11);
    let v12: nat = 0x88385db33dbb726_debcdf1552c4aac1_1a7ab12a095a9b60_efd2f904d8142c85nat;
    lemma_power_doubles(b, 0x3536b33333333nat, n, v11, 0x207d55c052413a9_7f452df5b2b0f15a_c36899c23601c274_a030488e9d65823cnat, v12);
    let v13: nat = 0x8e2d3e4dd02f956_2c0e66ad819b5969_0220da34f94f23a4_4064041ae88f20benat;
    lemma_power_doubles(b, 0x6a6d666666666nat, n, v12, 0x3e1ea982bcb4de1_5bdff20698f05317_75e11417ad54606d_3735a6c483f6dc5bnat, v13);
    let v14: nat = 0xe5f6e2451c4623_baa9000c92d28ef8_c4ef79787c6dd015_08464d7cee0bf365nat;
    lemma_power_doubles(b, 0xd4dacccccccccnat, n, v13, 0x43abd5412bbbe32_757d751bbd65803b_8aa32d849573d0e7_1f2784790a68199fnat, v14);
    let v15: nat = 0x123b9aef39a73e52_d8abb3bf71af7976_ac9bd62c5d3c83d0_8adde2b3ea219b27nat;
    lemma_power_steps(b, 0x1a9b5999999998nat, n, v14, 0x9f782fcded2088_b3602188d876dd34_865a955ca9654e7c_116ee9cd7db5908enat, v15);
    let v16: nat = 0x24c8f6c9f6d0eb3_cc67bcbd62d2c4c4_203d90ab7681021c_15371e5d189c035bnat;
    lemma_power_doubles(b, 0x1a9b5999999999nat, n, v15, 0x11ce6de3842c15fe_197059423898edce_b74978a68ce53395_6eef2a39917a3c96nat, v16);
}

/// Modulo the field order: the root to the power `x * (x + 1) / 10`.
proof fn lemma_modulus_root_x_t()
    ensures
        power(0xcf2493fb395ca90_970db6fae4fed2f5_c2f93037fb602681_ab265b0f9428da11nat, 0xd4daccccccccccdnat, 0x12ab655e9a2ca556_60b44d1e5c37b001_59aa76fed0000001_0a11800000000001nat) == 0x10e8fed36302a74f_0a250e109519f72e_519f34cb5c791bc3_47605eeb3d9a53efnat,
{
    let b: nat = 0xcf2493fb395ca90_970db6fae4fed2f5_c2f93037fb602681_ab265b0f9428da11nat;
    let n: nat = 0x12ab655e9a2ca556_60b44d1e5c37b001_59aa76fed0000001_0a11800000000001nat;
    lemma_modulus_root_x_t_part_5();
    let v0: nat = 0x24c8f6c9f6d0eb3_cc67bcbd62d2c4c4_203d90ab7681021c_15371e5d189c035bnat;
    let v1: nat = 0x8acb2637604f63b_87c0dd6e2ad1dd73_0aca65ae33c8f1d4_c1d2bfac8d0c346anat;
    lemma_power_steps(b, 0x3536b333333332nat, n, v0, 0x198238a4b2f710f_02d09428593399c3_37d055f720281230_9e4da11d126382a1nat, v1);
    let v2: nat = 0x81e7110165255b4_19581f931742265b_a1665832bed1f60b_fa21336f75719d95nat;
    lemma_power_doubles(b, 0x3536b333333333nat, n, v1, 0x407d2e31e351f7a_d3c2454dcef6ce24_3e5cf920e801b469_7bb3595243399e4fnat, v2);
    let v3: nat = 0x10e66cbef9fee42a_f92acc634f1b7490_2b547e225373bf49_bd05aa7dcb403b73nat;
    lemma_power_doubles(b, 0x6a6d6666666666nat, n, v2, 0x387dcf4a392da7f_a32b295e5294d7a3_4f48fedfeef48370_de4c672ee549dd46nat, v3);
    let v4: nat = 0xd395f86082a00d4_1e2f2c81f8510596_eb7fe7a3572a26eb_3b5824025821cb5dnat;
    lemma_power_doubles(b, 0xd4daccccccccccnat, n, v3, 0xf4c6262ce9cd7d2_b567971cb46e8645_67feecae12917fba_160194b1d12c6a4cnat, v4);
    let v5: nat = 0xffb4a5c1aa58b78_7167162d3478f81f_1f5b1f6f1048a861_025887d8d47d34e0nat;
    lemma_power_steps(b, 0x1a9b59999999998nat, n, v4, 0x92b98cf3f8212db_182d89a8cb4f7196_ba9546bd9e1b3fb7_d04ca3a857767e4dnat, v5);
    let v6: nat = 0x8bfa14f89c4f5d7_64358e2b6a9add99_0dfa6e8d6d171fc7_fc9035c9daa7fa8anat;
    lemma_power_doubles(b, 0x1a9b59999999999nat, n, v5, 0xdae40f8bd836070_81327152a18291d2_9a42676aee83888c_4d4be105d303c976nat, v6);
    let v7: nat = 0x3c5786bea892f95_ec9a783b15c9024b_3950d39ec43cb27d_8b99d0f4aafe75banat;
    lemma_power_steps(b, 0x3536b3333333332nat, n, v6, 0x61113fbe1e3e520_a75dd1d6996e76cb_20a5e270e710feb9_84f5a8d2d312b170nat, v7);
    let v8: nat = 0x101ca7eb69a12ee3_e37020c907f85962_f0a7120886528412_19afb49bd5378d13nat;
    lemma_power_doubles(b, 0x3536b3333333333nat, n, v7, 0xc30814c864481d_bb74ae22903f98e0_5df51df92ada4402_f910673d0603fe11nat, v8);
    let v9: nat = 0xfabb14a48262ef1_63886cdfb5d7c1c6_d8dbaf7f9a3f002f_6a1d9cf5dedb80f1nat;
    lemma_power_doubles(b, 0x6a6d66666666666nat, n, v8, 0xde79c3513224353_893bfb001a2fa6bc_5f00a2841a97308c_efe56cdbab0c6e78nat, v9);
    let v10: nat = 0x10e8fed36302a74f_0a250e109519f72e_519f34cb5c791bc3_47605eeb3d9a53efnat;
    lemma_power_steps(b, 0xd4dacccccccccccnat, n, v9, 0xaddeb80cd2104c1_7d48cc4bf493b3d6_f713c4f8b5900aaa_15bf5f25f46e7612nat, v10);
}

/// Part 1 of `lemma_modulus_without_2`.
proof fn lemma_modulus_without_2_part_1()
    ensures
        power(0x10e8fed36302a74f_0a250e109519f72e_519f34cb5c791bc3_47605eeb3d9a53efnat, 5320, 0x12ab655e9a2ca556_60b44d1e5c37b001_59aa76fed0000001_0a11800000000001nat) == 0x9c38d93c79b1e4d_d883ca4884017749_bafa9a2d7fd3de70_3fdde92ba664215bnat,
{
    let b: nat = 0x10e8fed36302a74f_0a250e109519f72e_519f34cb5c791bc3_47605eeb3d9a53efnat;
    let n: nat = 0x12ab655e9a2ca556_60b44d1e5c37b001_59aa76fed0000001_0a11800000000001nat;
    lemma_power_steps(b, 0, n, 1, 0, b);
    let v0: nat = b;
    let v1: nat = 0x101f429080eba199_533b32cf92ce2044_5af67de879b15f48_a3a2c6b3da6f89dbnat;
    lemma_power_doubles(b, 1, n, v0, 0xf510a28c6585d55_eccaba6c0b11c335_5e6518f4923bd620_b820bf1f22a14f46nat, v1);
    let v2: nat = 0x112ba63a569baafb_efbf44d86e5ac838_d543506ea55b6de3_9b488d518f2db0banat;
    lemma_power_doubles(b, 2, n, v1, 0xdec1b35c2c382bc_0598d539c6f537bc_ab6d04d1be582142_92a0a65242f8709fnat, v2);
    let v3: nat = 0x111f505ce3116a3f_ea44e0504b7d1579_f5ce6c51cf9919b8_902ee9aa37d79f84nat;
    lemma_power_steps(b, 4, n, v2, 0xf8d698a85468360_ac2c3fd9f21227a6_c6481f630c4cd5cd_59cf023ce600ac22nat, v3);
    let v4: nat = 0xe97ae0fbe2ee1ce_83a9d311379fde4f_974be679ba8969ac_81be29e885ee6294nat;
    lemma_power_doubles(b, 5, n, v3, 0xfb40e69ab3a0efe_b451ea25006a4e08_4b9de8f35fef532b_52a4558f852ed97cnat, v4);
    let v5: nat = 0x3f8a2a03006dcc1_aea5502d0c1d2231_23d3529bf4230029_700334a0ebc87af9nat;
    lemma_power_doubles(b, 10, n, v4, 0xb67e384e5fd3535_e02067ed88e72a07_edfd8f717d8021e4_1e11f0084d5d2a97nat, v5);
    let v6: nat = 0x366f6652057771a_22f046c1d968d11a_7c4f129c86affb75_7d2442e193ca316anat;
    lemma_power_doubles(b, 20, n, v5, 0xd840274bbf487f_973ca1f2f5f3ab5a_fc1f242cefbf88ee_18cfcb23f25814c7nat, v6);
    let v7: nat = 0x45f9cae54a0310e_5851b1048c87c00a_97da9e8784a812a1_56db595c8d446aa0nat;
    lemma_power_steps(b, 40, n, v6, 0x314e27ec3ab9ff4_2d4c8725c54df121_b9cc41c960e777d2_c0b797dcf6491556nat, v7);
    let v8: nat = 0x4e5a47adc1583ad_6345563226f3cf99_dd0ebee4fde4f146_eb57b389128e8a2anat;
    lemma_power_doubles(b, 41, n, v7, 0x10647347dd3b025_b0b09873602a0840_f96657162cc00514_eb8b9f33feda59d6nat, v8);
    let v9: nat = 0x6acef58b69ecd1d_1f2a84030f442fb0_60ed7a48812f109a_90d54fe70a895302nat;
    lemma_power_steps(b, 82, n, v8, 0x46f8074928382da_9de65328c007dec5_0b0f1b45ddd4d859_9ce81f4e9e994834nat, v9);
    let v10: nat = 0xaaa8fdf08373519_9cea0f180b8f926d_32beab17daf07330_64166acf879e8aa6nat;
    lemma_power_doubles(b, 83, n, v9, 0x2630d44b360ce91_f28584231aaf7572_54c83437e5dee713_5ecea2f2936fc15enat, v10);
    let v11: nat = 0x28d40ea0381abda_511813336a6f8f9b_34df5ddc0c0e9625_f3d6d29c9abbc0e6nat;
    lemma_power_doubles(b, 166, n, v10, 0x61805f3679f5def_c60f158c30135ad3_8ebd5a08a78482fe_69c27641e943a2benat, v11);
    let v12: nat = 0xb1109fcb04f9fd5_418cd227ce0def8b_0c17c806e97767ef_10b9dd1d043f1efanat;
    lemma_power_doubles(b, 332, n, v11, 0x5949985c575e19_15bcdba28aceed18_d9d4054c83c07e31_688200fb151eafaanat, v12);
    let v13: nat = 0x56290c5e089d140_024cf2d1d0bbbfc7_136122e42892ea26_783e115ced580070nat;
    lemma_power_steps(b, 664, n, v12, 0xa060f2608a5fbca_133371d111474102_118d0b71ee182051_bbaf98f2b504f8f6nat, v13);
    let v14: nat = 0x203a74e5559a67a_174a5730416bd284_596b79a722cf7538_42d7b049d16aa576nat;
    lemma_power_doubles(b, 665, n, v13, 0x18da1e7b29a9828_d1380f6090ea9b7f_ef521778bb20769b_a8d48f45db958b8anat, v14);
    let v15: nat = 0xd14034a2355a4a1_7743fb62389aaabe_39397e41e9d36213_e168f7a4499798ffnat;
    lemma_power_doubles(b, 1330, n, v14, 0x37a2648a4e60ae_b858b9ad0bd50618_05cc694eee97d8e1_8207743fd311b965nat, v15);
    let v16: nat = 0x9c38d93c79b1e4d_d883ca4884017749_bafa9a2d7fd3de70_3fdde92ba664215bnat;
    lemma_power_doubles(b, 2660, n, v15, 0x92950b12f76c334_f5287c1f2e2865c9_ce84c6d5235d05eb_6c98fe939fddaca6nat, v16);
}

/// Modulo the field order `n`: 22 to the power `(n - 1) / 2`.
proof fn lemma_modulus_without_2()
    ensures
        power(0x10e8fed36302a74f_0a250e109519f72e_519f34cb5c791bc3_47605eeb3d9a53efnat, 681135, 0x12ab655e9a2ca556_60b44d1e5c37b001_59aa76fed0000001_0a11800000000001nat) == 0x12ab655e9a2ca556_60b44d1e5c37b001_59aa76fed0000001_0a11800000000000nat,
{
    let b: nat = 0x10e8fed36302a74f_0a250e109519f72e_519f34cb5c791bc3_47605eeb3d9a53efnat;
    let n: nat = 0x12ab655e9a2ca556_60b44d1e5c37b001_59aa76fed0000001_0a11800000000001nat;
    lemma_modulus_without_2_part_1();
    let v0: nat = 0x9c38d93c79b1e4d_d883ca4884017749_bafa9a2d7fd3de70_3fdde92ba664215bnat;
    let v1: nat = 0xea22491f257a7a1_cd11567d0d473f94_c732d88334f9cbff_de8351a6323aa14enat;
    lemma_power_steps(b, 5320, n, v0, 0x8d8000fa68a1436_876314e1889c3e56_c24a8594f9026d64_5a8a01c45bcf03a7nat, v1);
    let v2: nat = 0x8a9c4c084162732_f85924f832c56554_de2a0f42b06c5dc4_c69df9718fe5dc76nat;
    lemma_power_doubles(b, 5321, n, v1, 0xb78448b4b3845dc_419616e37d388e90_a80ac9882b864965_5b5888266515574enat, v2);
    let v3: nat = 0x11614ffe6486b19_e1b52dd78c7547e8_1ea046f7cd8da748_4d8c0af1c023c694nat;
    lemma_power_doubles(b, 10642, n, v2, 0x4051ab98c6b626d_dff257f5eeb1952a_5a6abe4027632ded_2724bbea3cd33fd0nat, v3);
    let v4: nat = 0x10c6683ce68066bd_d65752c85deb5ebf_ca5ebfc612958b76_874600477dc99feenat;
    lemma_power_steps(b, 21284, n, v3, 0xfbe04b01400ef3_b4f162f09bd7c949_3641fc6773358a83_ed3f56693606c03enat, v4);
    let v5: nat = 0xdd73c5b02ea023e_7bc250209001abc5_f9cf96a48b83a2bf_ed080d95c594bb54nat;
    lemma_power_doubles(b, 21285, n, v4, 0xf12a1f0c4a3a4bc_bfe789b61877044f_5a0d8364aa49b1be_a8dd2d692e10c5f0nat, v5);
    let v6: nat = 0x5aa6fff83c85926_bdc12a5f8555f237_c28e75e96b5a6ad8_9a0882b9f91be4c4nat;
    lemma_power_doubles(b, 42570, n, v5, 0xa42ccecc2b57b06_4c62d959d83232b6_199afdaf13fa1d12_8aec53c67117eeccnat, v6);
    let v7: nat = 0xac62f88fdbeb9ff_634de8653e1decb6_9dd1dbfce1e72f6b_ee110bde2ed1a513nat;
    lemma_power_steps(b, 85140, n, v6, 0x521c04f6658d792_93881ea1a18735ab_e7992e0ae6b4ceff_372c43bbbf4c79e9nat, v7);
    let v8: nat = 0x5be399d49a333cb_c4542368b4bfe533_19b54d7cedcbe055_1dd5c5c75a6a3b80nat;
    lemma_power_doubles(b, 85141, n, v7, 0x637bf2e8bbf91bb_2b33ed6b3724896b_0c250e94defbba37_249cac2e6d0d43e9nat, v8);
    let v9: nat = 0x74185c41a62b8ae_8bb9122f7b8548b6_4acf3c480cc87167_979abc06fbab3e4dnat;
    lemma_power_steps(b, 170282, n, v8, 0x533ac8d9624f779_423aac879a410996_068f3e1772d0c1bd_c7715dfc29ccce33nat, v9);
    let v10: nat = 0x2f193b398d1e4fc_e41c3f3c786f53c7_8ccf86d6b07339eb_254e440063674368nat;
    lemma_power_doubles(b, 170283, n, v9, 0x2d1ee1c8feb2fcc_b2be98b4f8851474_a470a33f7bd4ef74_36957e52e4a01fc1nat, v10);
    let v11: nat = 0xc87d23e62f7ab2c_ae4dce08b03e77fd_d4bab9090fadc7c0_80aeb97ff03db78dnat;
    lemma_power_steps(b, 340566, n, v10, 0x2aa8fb7ccd2dc10_58e16f19b2b98d62_618521db5d2e5e9c_4064dabdac94ee8bnat, v11);
    let v12: nat = 0x101b0e4735ac83fc_58f69dd68cf6842f_260684ce64ebde19_148dba6b865c24e9nat;
    lemma_power_doubles(b, 340567, n, v11, 0x8690429dc9bf582_b954d7d2761402cc_e38a80b0f254d11a_56f7f483d670bec0nat, v12);
    let v13: nat = 0x12ab655e9a2ca556_60b44d1e5c37b001_59aa76fed0000001_0a11800000000000nat;
    lemma_power_steps(b, 681134, n, v12, 0xe9681e3922e8109_ddc7a5c3c5b812a6_ab5696e2e8812a48_30ac1f0f09280087nat, v13);
}

/// Part 1 of `lemma_modulus_without_3`.
proof fn lemma_modulus_without_3_part_1()
    ensures
        power(0x10e8fed36302a74f_0a250e109519f72e_519f34cb5c791bc3_47605eeb3d9a53efnat, 1772, 0x12ab655e9a2ca556_60b44d1e5c37b001_59aa76fed0000001_0a11800000000001nat) == 0xe97036dcccdd45f_11cf2a9c2fb2e69d_fbd5b45f631476cf_412156039a298572nat,
{
    let b: nat = 0x10e8fed36302a74f_0a250e109519f72e_519f34cb5c791bc3_47605eeb3d9a53efnat;
    let n: nat = 0x12ab655e9a2ca556_60b44d1e5c37b001_59aa76fed0000001_0a11800000000001nat;
    lemma_power_steps(b, 0, n, 1, 0, b);
    let v0: nat = b;
    let v1: nat = 0x101f429080eba199_533b32cf92ce2044_5af67de879b15f48_a3a2c6b3da6f89dbnat;
    lemma_power_doubles(b, 1, n, v0, 0xf510a28c6585d55_eccaba6c0b11c335_5e6518f4923bd620_b820bf1f22a14f46nat, v1);
    let v2: nat = 0xdc2343ed838b233_d7811c7e58f0e179_7c83054eaac6447b_be7f6d193ace7ae0nat;
    lemma_power_steps(b, 2, n, v1, 0xe9a50bf8b5aa795_1fad6385c5cfdfd7_3142b8b5b212ef28_d694d59cf9c33995nat, v2);
    let v3: nat = 0x925336491900d1d_e0727293b1956867_f8e0239f520d9c70_d23a97c3b796038bnat;
    lemma_power_doubles(b, 3, n, v2, 0xa23b5875e0d27f6_a961a04bd47aee82_28b066504adfbd8d_fc7ede33c3e44075nat, v3);
    let v4: nat = 0x6cd6f86313c403b_0880d07729673bd5_62ad9d82cb63a0d9_b86d03ce3eb8ed0bnat;
    lemma_power_doubles(b, 6, n, v3, 0x47ad807bec640f4_9a4baca744f455bc_8a56d932796dc344_55692ceca237a06enat, v4);
    let v5: nat = 0x8e11e5d1aaa00cb_543fb53799c2ff6e_fb603d8de78363a2_9d5d08312cda7779nat;
    lemma_power_steps(b, 12, n, v4, 0x62953877f458747_92b9df0434a5c900_ca33988145f44850_44a2d2848e4366ccnat, v5);
    let v6: nat = 0xae674b316f04383_eaa0571c2e1aa628_650ec2498c466cc0_523c83ba674a60f8nat;
    lemma_power_doubles(b, 13, n, v5, 0x4391cfc769ac8e9_8c225340a77bdfd8_6303fcc0825fc3cb_21bd1c18e28b5639nat, v6);
    let v7: nat = 0x41da95c5747a401_f7853413598c7081_1c89e1feeba6b187_6469a96cb846a0benat;
    lemma_power_steps(b, 26, n, v6, 0x9df7d2d1e9621c0_bdd5443b464f1340_495f684b027c3082_a89cb09840ca4ecanat, v7);
    let v8: nat = 0xb7c3ae8423c50e8_836c9a0bb3459ffb_4d6a1ebcac22bfe0_fd81b0f53fb85aa4nat;
    lemma_power_doubles(b, 27, n, v7, 0xe84a119a99026b_8c1c49de3ba24d33_0991625ac810a4a1_1d4265e82d1db260nat, v8);
    let v9: nat = 0x3935f11aed9cec7_8cf586da90f919d6_9290c0cf95bb170e_f07d5a054232023fnat;
    lemma_power_steps(b, 54, n, v8, 0xa6726179bfa4c4d_2a8eb68c159e8300_c94d04021302c693_77958da59af5c8ddnat, v9);
    let v10: nat = 0x10da16a1e351b3f0_4e8dbc5264da310d_9dd999ebf330d850_8f696e9d6f3cca0bnat;
    lemma_power_doubles(b, 55, n, v9, 0xaf50e769a8d978_8521fb786e4e5b04_5383f0912a6eede7_7d31c6c5ed644176nat, v10);
    let v11: nat = 0xcc2f570695535a8_61692153e9b77472_9a173a989c1ff093_343ecf2dfcfbecb3nat;
    lemma_power_doubles(b, 110, n, v10, 0xf3614ef99b2197d_31f1df1ee2752c5d_3467a9450878919f_d1453bf4e1a16fc6nat, v11);
    let v12: nat = 0xfb2da6cc7eb09c6_682a0fea1782ec39_73613f3c648afb11_b8cf1b4b0922f920nat;
    lemma_power_steps(b, 220, n, v11, 0xb8f16526722d2c8_51f48661a35e10ba_8a15ff0922732b32_03f2f2edde7b0afdnat, v12);
    let v13: nat = 0x112e13ddfcecb23d_3b1d6c3715fae57e_79d9d3bd5134e107_4d3a6c89e0b601ccnat;
    lemma_power_doubles(b, 221, n, v12, 0xd3355d201d8760c_8098ea5a746406fd_cf95bd4134d74c1d_4155c6817e394234nat, v13);
    let v14: nat = 0xc9ee6c6780f0c72_5b9d629fe1cc5580_83822498632e62cf_f5551b67fb073dd5nat;
    lemma_power_steps(b, 442, n, v13, 0xf8f9c992c5512fa_e5cd00499b433842_1b6d901281bbec7e_c9c1875a8231939fnat, v14);
    let v15: nat = 0x3cec049bc089601_72cbca18e40275d4_2eca27b6f47ea4a2_93eac3a481de12a5nat;
    lemma_power_doubles(b, 443, n, v14, 0x8881c09f807fc01_333ade84cc58b573_3de9df69289197cd_286f1f359cb72094nat, v15);
    let v16: nat = 0xe97036dcccdd45f_11cf2a9c2fb2e69d_fbd5b45f631476cf_412156039a298572nat;
    lemma_power_doubles(b, 886, n, v15, 0xc6cc93b42b34bc_b37498c49609ec39_2e9c4d09749c3e28_8f88fad3075e18e7nat, v16);
}

/// Modulo the field order `n`: 22 to the power `(n - 1) / 3`.
proof fn lemma_modulus_without_3()
    ensures
        power(0x10e8fed36302a74f_0a250e109519f72e_519f34cb5c791bc3_47605eeb3d9a53efnat, 454090, 0x12ab655e9a2ca556_60b44d1e5c37b001_59aa76fed0000001_0a11800000000001nat) == 0x12ab655e9a2ca556_60b44d1e5c37b001_14885f3240000000_0000000000000000nat,
{
    let b: nat = 0x10e8fed36302a74f_0a250e109519f72e_519f34cb5c791bc3_47605eeb3d9a53efnat;
    let n: nat = 0x12ab655e9a2ca556_60b44d1e5c37b001_59aa76fed0000001_0a11800000000001nat;
    lemma_modulus_without_3_part_1();
    let v0: nat = 0xe97036dcccdd45f_11cf2a9c2fb2e69d_fbd5b45f631476cf_412156039a298572nat;
    let v1: nat = 0x1dea40d8de43c11_15aa0b2fb9e759dd_558fceaad6339571_0207248bf9dd7e06nat;
    lemma_power_steps(b, 1772, n, v0, 0xd370887eaa8e544_bc0f63408784ee7c_b4c146bfa9dc929f_a6235138d9be0d68nat, v1);
    let v2: nat = 0x475c9368df51b86_f6f403e5945eff1e_c1412d7c0a47992a_e15952cccb2db38fnat;
    lemma_power_doubles(b, 1773, n, v1, 0x2fef2ee85355de_3ff78e63df0a9da7_75f46df412f5250b_46a45681b5383495nat, v2);
    let v3: nat = 0x3700080c8d75e61_1e3a275bfeb17fa3_64f52f99e6013c95_c390220312097342nat;
    lemma_power_steps(b, 3546, n, v2, 0x40a2fb7c725b8d9_8e34cdbc534b61f8_76158c5dd0370aff_6d7c849a85de8c3fnat, v3);
    let v4: nat = 0x9af02f0379f5985_1e7b8de5b25214ab_945ffc75e9584806_6a765b50dbe26b4cnat;
    lemma_power_doubles(b, 3547, n, v3, 0xa20791add683d8_2e8ed9774e6209ed_6a1f10fdbfeba458_85d134c9baa5f1b8nat, v4);
    let v5: nat = 0xf272783ce647acc_06269ff683276e2c_c3460c5a7a8818bd_714ef2cabf98cc4bnat;
    lemma_power_steps(b, 7094, n, v4, 0x8c564fc5450d21b_b21f2b7fa92d5e3c_6dd5d3301eac8fd0_7885a586994b03a9nat, v5);
    let v6: nat = 0x11a871de75372f47_4a130fadc85b3885_6d3501df20e791ac_3c414e71f774dd64nat;
    lemma_power_doubles(b, 7095, n, v5, 0xc4c7b31c881c002_9540c32d50b90e62_822a888bddf1f11d_4a08bff52ea2c095nat, v6);
    let v7: nat = 0xfa650af7246e2c4_0d1fef3c44f74e9c_218b69cb73048f35_83050b82a8e57308nat;
    lemma_power_doubles(b, 14190, n, v6, 0x10b38617287215b9_98afa3263df13795_c531f14ec2b87162_ca7e0f55b1305c08nat, v7);
    let v8: nat = 0x114fe0c86e8b027_6245e5ff4efe1a2d_29c45d078aa92701_eb99e937d4f65a58nat;
    lemma_power_doubles(b, 28380, n, v7, 0xd1e484a2e681b3f_e920b23838b56341_8eec16f0d3f3eac3_43b38f89ab09d5e8nat, v8);
    let v9: nat = 0xc9a65c67c2d21c9_606db1f5ac442619_a41e1342d22a9af7_e54a295b752283eanat;
    lemma_power_steps(b, 56760, n, v8, 0xfae3a14b801b22_bf4f481af1944fcf_59db4c24ce37546a_116cba518d165c3enat, v9);
    let v10: nat = 0x4679d887d09d927_c3d3322f9077b189_6272d4d585dd106c_62127b6a2453882bnat;
    lemma_power_doubles(b, 56761, n, v9, 0x8820641545f892c_3e1c0c34737ea4e1_bd3f9b3b8aeca41a_8b73522d0dcdc9b9nat, v10);
    let v11: nat = 0x29588f23805c969_75a08f3d6021e95a_fd5fdb111c271ec7_f4a4a39f6e23fa42nat;
    lemma_power_doubles(b, 113522, n, v10, 0x10a0a8e64c77d32_1f84fffbba02ba49_f0b743d1bf46ae14_6bb28b8a3e2bbcf7nat, v11);
    let v12: nat = 0x12ab655e9a2ca556_60b44d1e5c37b001_14885f3240000000_0000000000000001nat;
    lemma_power_steps(b, 227044, n, v11, 0x25731780086a25e_ee6dad8d1c02b264_191e93b745d460fa_df57bd69c36e099dnat, v12);
    let v13: nat = 0x12ab655e9a2ca556_60b44d1e5c37b001_14885f3240000000_0000000000000000nat;
    lemma_power_doubles(b, 227045, n, v12, 0x12ab655e9a2ca556_60b44d1e5c37b000_cf664765affffffe_f5ee800000000001nat, v13);
}

/// Part 1 of `lemma_modulus_without_5`.
proof fn lemma_modulus_without_5_part_1()
    ensures
        power(0x10e8fed36302a74f_0a250e109519f72e_519f34cb5c791bc3_47605eeb3d9a53efnat, 8514, 0x12ab655e9a2ca556_60b44d1e5c37b001_59aa76fed0000001_0a11800000000001nat) == 0x99d48256a7997cd_25d7556928777d99_2c5a5ba46422b916_d26dc56e0cff91f6nat,
{
    let b: nat = 0x10e8fed36302a74f_0a250e109519f72e_519f34cb5c791bc3_47605eeb3d9a53efnat;
    let n: nat = 0x12ab655e9a2ca556_60b44d1e5c37b001_59aa76fed0000001_0a11800000000001nat;
    lemma_power_steps(b, 0, n, 1, 0, b);
    let v0: nat = b;
    let v1: nat = 0x101f429080eba199_533b32cf92ce2044_5af67de879b15f48_a3a2c6b3da6f89dbnat;
    lemma_power_doubles(b, 1, n, v0, 0xf510a28c6585d55_eccaba6c0b11c335_5e6518f4923bd620_b820bf1f22a14f46nat, v1);
    let v2: nat = 0x112ba63a569baafb_efbf44d86e5ac838_d543506ea55b6de3_9b488d518f2db0banat;
    lemma_power_doubles(b, 2, n, v1, 0xdec1b35c2c382bc_0598d539c6f537bc_ab6d04d1be582142_92a0a65242f8709fnat, v2);
    let v3: nat = 0x423f8dd804fa6b1_5a93eaa1a44543bc_e3940a1828ecbf2c_e535b7c070b54a37nat;
    lemma_power_doubles(b, 4, n, v2, 0xfcab6e408c44aaa_c7a7ebe6852f1597_5228a9d7f4c82e53_72e1958af6aefcednat, v3);
    let v4: nat = 0x2b63943561c675f_7124f8d769a777be_43bfec5b92b1ebd3_8808e9a88954ca5dnat;
    lemma_power_doubles(b, 8, n, v3, 0xeb1481e0902165_5ab919e69e89e77d_a46b5bdf1604707d_16f82c299df50d74nat, v4);
    let v5: nat = 0x10d21a96f0b8395b_8826a360104a4d8a_14540ede9f30532f_47748de8e06258e3nat;
    lemma_power_doubles(b, 16, n, v4, 0x64d69fbc94219d_59ff57b82d70152f_388662159f6eaf44_71f532d4169c8ce6nat, v5);
    let v6: nat = 0x53008f1dae2777a_990667d613e298c6_81aa92ad58983229_c185995f8df02366nat;
    lemma_power_steps(b, 32, n, v5, 0xf3c4e2e0dc3be3c_09ee31f846962890_cdb3fe9cc146db4f_f22c408260407187nat, v6);
    let v7: nat = 0x667325fba2f4118_12ac3b3ea6ca412c_c1379789fc3788ad_69baae17057593b8nat;
    lemma_power_doubles(b, 33, n, v6, 0x1710444b3740487_5778eebd396acefe_74604c957b35fb92_df5bebddbaaf78ecnat, v7);
    let v8: nat = 0x23a3a0e7f80a44b_559ef99eabf09a9d_985017f56b3691b5_d03b716608815550nat;
    lemma_power_doubles(b, 66, n, v7, 0x23232a533020d48_68f342be543026b1_650a5bf20de01f81_09c9076f82eb7ef0nat, v8);
    let v9: nat = 0x1211c39ab9331a3b_4ac14195ad71c8af_8b4aeb0ccf4c39c7_dd1257505e1b972bnat;
    lemma_power_steps(b, 132, n, v8, 0x2047d619ce318b1_fc8a1aea39e33e4d_04539ccb008477ca_b98dbb44e36bfe85nat, v9);
    let v10: nat = 0x929b585c527357d_55b5d73fbe4cf9cd_ffbb305c4def8944_26c6ee21a4bec024nat;
    lemma_power_doubles(b, 133, n, v9, 0x117d12146f17af0e_b3660ed061ebd77b_8045e3651348d7b6_a8eb8cbb2b970115nat, v10);
    let v11: nat = 0x857cb30b8ef10b2_16ef4bf2d955facb_fab58c4f4c017b45_dae6bb44341de4adnat;
    lemma_power_doubles(b, 266, n, v10, 0x47f43d38d061cd4_41bc4567be0233e9_f3436b9c2d79163f_887a3253b1882063nat, v11);
    let v12: nat = 0x1b389d6710e5881_b3da9f719f96e3f4_600e8a72af1217d5_e7db0f9535f6acfdnat;
    lemma_power_doubles(b, 532, n, v11, 0x3ba6eee3dc93419_e11d229c75a37ef2_eecda58b1cace55e_eaf152b6ad7fefecnat, v12);
    let v13: nat = 0xb41a97961694b68_f399dfd62e616001_49adeede8c6152d8_979a0bdf1dcdb883nat;
    lemma_power_doubles(b, 1064, n, v12, 0x27b09cef0f6396_7f538633b9ca1cd6_376160b613400dbb_116609f48f533986nat, v13);
    let v14: nat = 0x11e26120de56fcad_b08dee22128352fa_aba830a3b6e5051e_d8d7f8252cf136acnat;
    lemma_power_doubles(b, 2128, n, v13, 0x6c973f89333e821_d3de1ed0af0b93b8_472ea3a8aab41acd_da237f3387d95c5dnat, v14);
    let v15: nat = 0xd85d299d54b73ed_b7471bbcd4eec472_07041a3379c528d9_bb7134fa968a17d2nat;
    lemma_power_steps(b, 4256, n, v14, 0x1032ec17d5d48e3f_bafa9f1ccf6e4ed6_b4f8276ac3876fc8_53735e5272d9b6c2nat, v15);
    let v16: nat = 0x99d48256a7997cd_25d7556928777d99_2c5a5ba46422b916_d26dc56e0cff91f6nat;
    lemma_power_doubles(b, 4257, n, v15, 0x9cb799c6d335941_8c105a805bf9cf72_832e5568e8fa47fb_468b2f21bb9fd64enat, v16);
}

/// Modulo the field order `n`: 22 to the power `(n - 1) / 5`.
proof fn lemma_modulus_without_5()
    ensures
        power(0x10e8fed36302a74f_0a250e109519f72e_519f34cb5c791bc3_47605eeb3d9a53efnat, 272454, 0x12ab655e9a2ca556_60b44d1e5c37b001_59aa76fed0000001_0a11800000000001nat) == 0x232ba5e79e97732_ec72ad2182104954_c06ab18d14963f69_057669302c960922nat,
{
    let b: nat = 0x10e8fed36302a74f_0a250e109519f72e_519f34cb5c791bc3_47605eeb3d9a53efnat;
    let n: nat = 0x12ab655e9a2ca556_60b44d1e5c37b001_59aa76fed0000001_0a11800000000001nat;
    lemma_modulus_without_5_part_1();
    let v0: nat = 0x99d48256a7997cd_25d7556928777d99_2c5a5ba46422b916_d26dc56e0cff91f6nat;
    let v1: nat = 0xfd2df49f121171a_f73f6bb28e45208f_c18573c1c67ec081_973c7701c223864bnat;
    lemma_power_doubles(b, 8514, n, v0, 0x4f3814667a22109_cef98c28c31d401a_f6cc8ca8f8577114_1879093969291219nat, v1);
    let v2: nat = 0x6549fa89a758c05_6d7f0bc71c57e089_24c52d7e696d52bf_d589745a9311be18nat;
    lemma_power_doubles(b, 17028, n, v1, 0xd6965bca23fcf32_86a4f01900db60fd_7d0cd0e978c035ef_e417aeb317e2dbe1nat, v2);
    let v3: nat = 0x11b482dca4bc2e39_5488111ba3a61d08_d2385feae1b5ea87_52f79da35537ab36nat;
    lemma_power_doubles(b, 34056, n, v2, 0x22587a891ff56f4_657697f3bc49bf9e_93ec12d4fa880e8e_1cc62cc7071ff70anat, v3);
    let v4: nat = 0x555d11e769009ac_bee53cf1ed89d8fa_c7d2523693da08a5_5a6cbb96f8bf6e18nat;
    lemma_power_steps(b, 68112, n, v3, 0x10096064d895c4ed_58793cf6406cadb7_384445029c6697fe_3187ea617f37eb52nat, v4);
    let v5: nat = 0xb6cf4c2db27db8d_57d6be3084bb28a9_f31c7dfe692f43f4_050dc07d0d8edbe9nat;
    lemma_power_doubles(b, 68113, n, v4, 0x1864fe0ed5b7ccf_f590987b7fe3b238_710d51d250c9ca40_671f4816e999c657nat, v5);
    let v6: nat = 0x85a4db8e61091d7_96c7b365fa31d08b_9541063d7ba7cf1a_0b0e91be84af0b47nat;
    lemma_power_steps(b, 136226, n, v5, 0xa59506e2acb826b_c2c47adf3e58b045_4e3fbac85b547d59_1d894da04426ce40nat, v6);
    let v7: nat = 0x232ba5e79e97732_ec72ad2182104954_c06ab18d14963f69_057669302c960922nat;
    lemma_power_doubles(b, 136227, n, v6, 0x3bcad8801fba5d8_523075f93e783cee_d9308b4ef4cd3510_3de73d8576fb248fnat, v7);
}

/// Part 1 of `lemma_modulus_without_7`.
proof fn lemma_modulus_without_7_part_1()
    ensures
        power(0x10e8fed36302a74f_0a250e109519f72e_519f34cb5c791bc3_47605eeb3d9a53efnat, 3040, 0x12ab655e9a2ca556_60b44d1e5c37b001_59aa76fed0000001_0a11800000000001nat) == 0x317cd20792fa76d_590404423b7074d1_f10f216093deb23c_b17766a767c4154dnat,
{
    let b: nat = 0x10e8fed36302a74f_0a250e109519f72e_519f34cb5c791bc3_47605eeb3d9a53efnat;
    let n: nat = 0x12ab655e9a2ca556_60b44d1e5c37b001_59aa76fed0000001_0a11800000000001nat;
    lemma_power_steps(b, 0, n, 1, 0, b);
    let v0: nat = b;
    let v1: nat = 0x101f429080eba199_533b32cf92ce2044_5af67de879b15f48_a3a2c6b3da6f89dbnat;
    lemma_power_doubles(b, 1, n, v0, 0xf510a28c6585d55_eccaba6c0b11c335_5e6518f4923bd620_b820bf1f22a14f46nat, v1);
    let v2: nat = 0x112ba63a569baafb_efbf44d86e5ac838_d543506ea55b6de3_9b488d518f2db0banat;
    lemma_power_doubles(b, 2, n, v1, 0xdec1b35c2c382bc_0598d539c6f537bc_ab6d04d1be582142_92a0a65242f8709fnat, v2);
    let v3: nat = 0x111f505ce3116a3f_ea44e0504b7d1579_f5ce6c51cf9919b8_902ee9aa37d79f84nat;
    lemma_power_steps(b, 4, n, v2, 0xf8d698a85468360_ac2c3fd9f21227a6_c6481f630c4cd5cd_59cf023ce600ac22nat, v3);
    let v4: nat = 0xe97ae0fbe2ee1ce_83a9d311379fde4f_974be679ba8969ac_81be29e885ee6294nat;
    lemma_power_doubles(b, 5, n, v3, 0xfb40e69ab3a0efe_b451ea25006a4e08_4b9de8f35fef532b_52a4558f852ed97cnat, v4);
    let v5: nat = 0x11cc7e532e7188c1_ad45dfb5424c4a65_1eea506b8ebec510_101d74022af5dbf0nat;
    lemma_power_steps(b, 10, n, v4, 0xd37a3155cad5429_02fa2ccf85a3892f_7bbf4aa0c286daf5_bb39443fb996283cnat, v5);
    let v6: nat = 0xedf61300b173cf9_9b83ce6c2caeabd2_27435cebd05fa65c_f9e74d7cec4f0878nat;
    lemma_power_doubles(b, 11, n, v5, 0x10f7fc995f2c456b_98244090d0dec4be_7b0937336584872b_4f8b3a8c8a057888nat, v6);
    let v7: nat = 0xbf1a06f4fe154f6_ead8af01abd10985_deb9fe25c79ec86a_0940357ce16c2a20nat;
    lemma_power_steps(b, 22, n, v6, 0xd789475b7f33263_0965bdb89a957010_ead3c4a93285d34c_249275790c4ba5e8nat, v7);
    let v8: nat = 0xc26e5b86cbe2300_e8625f8a20885fe6_2046a65645160dd8_85b0b89f891042ebnat;
    lemma_power_doubles(b, 23, n, v7, 0x7a41f335c872e07_d4e40ef9c16eedfd_cb38e760045a2d23_7619262048de4115nat, v8);
    let v9: nat = 0x6551eebf886ba01_4a5f978089333e11_ae3bccb46bfe8f35_cbca5a8efdde2024nat;
    lemma_power_steps(b, 46, n, v8, 0xb01bb926b5032bb_f5660ec03e66f13b_501e77ae0d005fc3_75dd47457e608a41nat, v9);
    let v10: nat = 0x305b5fd1b3b68e0_ef6d7be2bf2efb27_4bdfc3c5180cf1bd_b2c33a3a6f5aee54nat;
    lemma_power_doubles(b, 47, n, v9, 0x225ddfa569f8c03_2905e7a681002ea4_00d74d8b7f2aaadf_04f889f87b1e16bcnat, v10);
    let v11: nat = 0xf1166c7d51abde8_a82a608957a624b7_9e1b53c3e729ffb7_b432f41f588dfd61nat;
    lemma_power_steps(b, 94, n, v10, 0x2bccc468bdbb1b2_cc3d9a6063139691_6ffcebf169b1f8eb_b9dc21227b23bf0bnat, v11);
    let v12: nat = 0x68bb5c466d6065d_ab58c8dd9093d78a_1c6a27e3cf1c41b8_45b25e8bc30626f8nat;
    lemma_power_doubles(b, 95, n, v11, 0xc2944e98fa9a2f4_f594e94471773577_4af7d0c32e4b1db4_edfa53e6049cb7c9nat, v12);
    let v13: nat = 0xef63f64685e54a4_15b27790901e0034_7ec4eb6f0b4c2774_c5ad74f8388b4cacnat;
    lemma_power_doubles(b, 190, n, v12, 0x24b85d61f87315b_7636ea93132c4e28_5ba38fd9ed0fa430_16735bdb71034394nat, v13);
    let v14: nat = 0xcb3836085b9fd4b_9608b446354eeeac_153881de0ffbd4de_f0e3462b00859221nat;
    lemma_power_doubles(b, 380, n, v13, 0xbfd979e20c5702d_ab246989512c2f48_c7057b641d110e50_505be46c9939016fnat, v14);
    let v15: nat = 0x556512405bca627_a7e27b1ec67b0922_e6f0d9eb27dc0906_8b343b73bcbc1273nat;
    lemma_power_doubles(b, 760, n, v14, 0x8a410d387ee0c90_fce1510bf29b0ca2_8d06abc56095c601_ea862d536cf795cenat, v15);
    let v16: nat = 0x317cd20792fa76d_590404423b7074d1_f10f216093deb23c_b17766a767c4154dnat;
    lemma_power_doubles(b, 1520, n, v15, 0x186990fe0d775d2_47b601fa91e1df21_2e914432c85d2a6c_ce94f3ee9a784a5cnat, v16);
}

/// Modulo the field order `n`: 22 to the power `(n - 1) / 7`.
proof fn lemma_modulus_without_7()
    ensures
        power(0x10e8fed36302a74f_0a250e109519f72e_519f34cb5c791bc3_47605eeb3d9a53efnat, 194610, 0x12ab655e9a2ca556_60b44d1e5c37b001_59aa76fed0000001_0a11800000000001nat) == 0x86a35f4405dc17f_4cc068263d420ea0_f278811d95ba7b6b_ac75fb2665fee553nat,
{
    let b: nat = 0x10e8fed36302a74f_0a250e109519f72e_519f34cb5c791bc3_47605eeb3d9a53efnat;
    let n: nat = 0x12ab655e9a2ca556_60b44d1e5c37b001_59aa76fed0000001_0a11800000000001nat;
    lemma_modulus_without_7_part_1();
    let v0: nat = 0x317cd20792fa76d_590404423b7074d1_f10f216093deb23c_b17766a767c4154dnat;
    let v1: nat = 0x6a7bfc9aa12177_36b9cfc13c812074_b1b1d0f9051c4a91_c079e5c37ccffa0cnat;
    lemma_power_doubles(b, 3040, n, v0, 0x832d7146af45ff_5694d8ddf33284d2_c411345921ef9bb2_a17d200718ddbf1dnat, v1);
    let v2: nat = 0xd89f3533ddb1e5c_951c504f60c3742b_d626a42782d448af_322a2e6bb62d0b54nat;
    lemma_power_steps(b, 6080, n, v1, 0x60730f9d5dd8d8_9fcc7be0cac9057a_9d8c36feb96c267f_8de34942854749e0nat, v2);
    let v3: nat = 0xbd1815de9b3b8a1_13e0aef59ec4ce1c_d8a96a4972566600_a7171b224c6a69a2nat;
    lemma_power_doubles(b, 6081, n, v2, 0x9d1755765cb9b4e_d8c670d942ee784e_994088692f415a79_1211a11e1f9de9eenat, v3);
    let v4: nat = 0x8495f879d1f7160_03844822daee15a7_ef5d07a963e4c3a4_0e3ea80b705022f8nat;
    lemma_power_steps(b, 12162, n, v3, 0xab4634b2e25a346_5dce6b5e07327e0f_52c71b2e197e7279_dde692a58cbc0146nat, v4);
    let v5: nat = 0x864fc33d366f798_0e35d944a0046208_77bba7a8cf3da309_9071e94b19eb33ccnat;
    lemma_power_doubles(b, 12163, n, v4, 0x3ad96a5551d0d70_abb3e83fd32abb48_6472ce601c36f232_cbcecfb3c5db9c74nat, v5);
    let v6: nat = 0x9427455b62330b7_c2500ed02810686e_fd8a271ee4720888_8b943e75e792b40anat;
    lemma_power_doubles(b, 24326, n, v5, 0x3c64275254a2896_1992b2b3a124544f_df3e012d7db4be1c_0f143b4813703686nat, v6);
    let v7: nat = 0x8b4365e50958560_84659ccf04a021e4_31f7ffceb419c957_3861e8fa1db09a43nat;
    lemma_power_doubles(b, 48652, n, v6, 0x497aed3e220a0e6_3170cad10a1fed7e_a41e394d78ba864e_7eb41525c8557621nat, v7);
    let v8: nat = 0x10e0491f7a8cdfd0_6afc7768a1e06163_d2fc23d5c9339896_d0b62789a1dd0b53nat;
    lemma_power_steps(b, 97304, n, v7, 0x7e23aec8451b34c_35ecbd20e896154a_1faa51ea38eb6a99_65af98181b54b23anat, v8);
    let v9: nat = 0x86a35f4405dc17f_4cc068263d420ea0_f278811d95ba7b6b_ac75fb2665fee553nat;
    lemma_power_doubles(b, 97305, n, v8, 0xf41470ff7f32188_26412d3a7eb5ed6e_a145c5b66175c92c_f32e34ca8dcf5796nat, v9);
}

/// Part 1 of `lemma_modulus_without_13`.
proof fn lemma_modulus_without_13_part_1()
    ensures
        power(0x10e8fed36302a74f_0a250e109519f72e_519f34cb5c791bc3_47605eeb3d9a53efnat, 3274, 0x12ab655e9a2ca556_60b44d1e5c37b001_59aa76fed0000001_0a11800000000001nat) == 0x1208fa74014984cc_c382ebd400c6ba6c_50687da8f5e3074a_61a7bb1770bdf5banat,
{
    let b: nat = 0x10e8fed36302a74f_0a250e109519f72e_519f34cb5c791bc3_47605eeb3d9a53efnat;
    let n: nat = 0x12ab655e9a2ca556_60b44d1e5c37b001_59aa76fed0000001_0a11800000000001nat;
    lemma_power_steps(b, 0, n, 1, 0, b);
    let v0: nat = b;
    let v1: nat = 0x101f429080eba199_533b32cf92ce2044_5af67de879b15f48_a3a2c6b3da6f89dbnat;
    lemma_power_doubles(b, 1, n, v0, 0xf510a28c6585d55_eccaba6c0b11c335_5e6518f4923bd620_b820bf1f22a14f46nat, v1);
    let v2: nat = 0xdc2343ed838b233_d7811c7e58f0e179_7c83054eaac6447b_be7f6d193ace7ae0nat;
    lemma_power_steps(b, 2, n, v1, 0xe9a50bf8b5aa795_1fad6385c5cfdfd7_3142b8b5b212ef28_d694d59cf9c33995nat, v2);
    let v3: nat = 0x925336491900d1d_e0727293b1956867_f8e0239f520d9c70_d23a97c3b796038bnat;
    lemma_power_doubles(b, 3, n, v2, 0xa23b5875e0d27f6_a961a04bd47aee82_28b066504adfbd8d_fc7ede33c3e44075nat, v3);
    let v4: nat = 0x6cd6f86313c403b_0880d07729673bd5_62ad9d82cb63a0d9_b86d03ce3eb8ed0bnat;
    lemma_power_doubles(b, 6, n, v3, 0x47ad807bec640f4_9a4baca744f455bc_8a56d932796dc344_55692ceca237a06enat, v4);
    let v5: nat = 0x104e5b2fbf4a6cc_7adce3f1fe02f9ef_c09f94f2a40785af_3a84dc72c99d2917nat;
    lemma_power_doubles(b, 12, n, v4, 0x27a83d252f74d52_88f4d0c187ceb317_5b4a28424efc25ce_4d2ffba825b03562nat, v5);
    let v6: nat = 0x106dcb6c2249b5bf_8d212c9f3adf73db_bf69f14fce434675_95d2978c5f5e4305nat;
    lemma_power_steps(b, 24, n, v5, 0xec4f92dc0020a4_d187ebb0c4f8c50e_f2d2386bf626d64c_e3d5546e01838e74nat, v6);
    let v7: nat = 0x10d902accef00888_ac06231fe0166afe_393ad22ea67b9a79_93a0a2223546847enat;
    lemma_power_doubles(b, 25, n, v6, 0xe7508c70cee7680_3e5ac792d4334406_80d72641a8eb27a5_8a2b29c8c9f1199bnat, v7);
    let v8: nat = 0x123ad714dc4eca71_6088ee98a22a9962_04dd2bf8f1f63f6b_763fc278d9423cd5nat;
    lemma_power_steps(b, 50, n, v7, 0xf428fa500ca5293_1c685aee4576ab79_fb7b3c7dc3b0a5b3_292cf0647a544ecdnat, v8);
    let v9: nat = 0xb372be9abcf84d1_28f9a97862dbe98e_34ade2126b418cbc_365d0e091ea26cebnat;
    lemma_power_doubles(b, 51, n, v8, 0x11ccef604ccc7f2d_51cb214a14476748_f17aa1d21b9f5510_e5d129eb67a61c4enat, v9);
    let v10: nat = 0xd0e2150d9e98084_db3fa9c653764c4e_b607507012490af8_d356c323b1de2940nat;
    lemma_power_doubles(b, 102, n, v9, 0x6bcd36e65ba170f_02c1430487dd25ee_ed2f5802829e1891_cf2191f769e4f679nat, v10);
    let v11: nat = 0x14519ae3c89ba61_3707db8d30bb1cc5_35dde73493e9d5ac_e332daa24253f639nat;
    lemma_power_doubles(b, 204, n, v10, 0x92114a5c42a7b45_40147e88afe72437_20544cc82f78bfac_1bde62b3cf5199c7nat, v11);
    let v12: nat = 0x62f287120319f75_04a1697b11537b8e_60dd9fed7636a354_17cc88255c37cc67nat;
    lemma_power_steps(b, 408, n, v11, 0x12676a96140b79f_8950340759305f9c_9a83cb79c9e3c58b_3b1e0d587c498dd0nat, v12);
    let v13: nat = 0x210c886b4d7297_ccb3a0c4a5ae1394_334db7c80580b56d_77fdea4f3cebd407nat;
    lemma_power_doubles(b, 409, n, v12, 0x20c6a5c1e8f0c6c_913ad60de234127f_26bb757e21c9dc7a_29f1c28a428a7d6anat, v13);
    let v14: nat = 0x12448947d7d16f86_582113daf33568a9_0b1c22b4aca578ab_eaf0a803cdb13f32nat;
    lemma_power_doubles(b, 818, n, v13, 0x3a80eabf51aa_bf731111b642a30c_11c438c4732e018a_691fe4f06ec458ffnat, v14);
    let v15: nat = 0x33c44dc8f15b6ea_30828753d44d3752_4237e5c0844a5432_5165152f88ef7617nat;
    lemma_power_steps(b, 1636, n, v14, 0x108bd43827fffe97_5f63b723ccf24e17_2e1c3a945a6a94e8_fee4d9a2e51bbf97nat, v15);
    let v16: nat = 0x1208fa74014984cc_c382ebd400c6ba6c_50687da8f5e3074a_61a7bb1770bdf5banat;
    lemma_power_doubles(b, 1637, n, v15, 0x8f89f92f770a68_64dce7afe30f6941_1a20342e505c3df7_e91834d0b4ad4057nat, v16);
}

/// Modulo the field order `n`: 22 to the power `(n - 1) / 13`.
proof fn lemma_modulus_without_13()
    ensures
        power(0x10e8fed36302a74f_0a250e109519f72e_519f34cb5c791bc3_47605eeb3d9a53efnat, 104790, 0x12ab655e9a2ca556_60b44d1e5c37b001_59aa76fed0000001_0a11800000000001nat) == 0x7025e3a0cbb305_6ae1b2735f470d08_3bfca246e3c58675_ae91a9a703384aa6nat,
{
    let b: nat = 0x10e8fed36302a74f_0a250e109519f72e_519f34cb5c791bc3_47605eeb3d9a53efnat;
    let n: nat = 0x12ab655e9a2ca556_60b44d1e5c37b001_59aa76fed0000001_0a11800000000001nat;
    lemma_modulus_without_13_part_1();
    let v0: nat = 0x1208fa74014984cc_c382ebd400c6ba6c_50687da8f5e3074a_61a7bb1770bdf5banat;
    let v1: nat = 0x55c0968886dcb63_1ce6c45e4e348c2a_8b646275ff02b54f_47bcf5cd1d83ad60nat;
    lemma_power_doubles(b, 3274, n, v0, 0x116c1482128cd5cc_2de94f7bb5fe318e_3d02a6e69c384658_eccfb19662fdddc4nat, v1);
    let v2: nat = 0x230f4fc21db31df_349669cbcaadc03d_a6e2e15b0ab0efb7_8c9a3284aa06ac87nat;
    lemma_power_steps(b, 6548, n, v1, 0x4dabd21c886a569_3389d5f1e34d6263_5c1cc58eade24417_0fc0d131c0de5019nat, v2);
    let v3: nat = 0xf301da482089f07_0128a3148124b4d6_13d56bb397c0d5b5_18c2c36921792412nat;
    lemma_power_doubles(b, 6549, n, v2, 0x41d6e5218542fc_d6a4d4287aebec2e_15cd627d194ca6ea_cc3e411eb5208b1fnat, v3);
    let v4: nat = 0xbddff0b0af51c5f_b2645bb70ad9ca28_4d95cb454c9b6db7_09f297756fe8eee2nat;
    lemma_power_doubles(b, 13098, n, v3, 0xc5b0b834aa59f4b_7b37ca5c100446f9_c143209f5c4dac41_da55dfee52302262nat, v4);
    let v5: nat = 0xe98d908fd059192_045f904d1d4bddd9_ccc87234ce176431_ad032a94cfabc54fnat;
    lemma_power_steps(b, 26196, n, v4, 0xabfb3a0a06d9668_d23398da04f1451b_5d23cce1fdf33239_e7b6e7d8be3285afnat, v5);
    let v6: nat = 0x10362db79ea5f30f_2532636fa493a9eb_5d1bba12a8b0d42e_290f08d633f30664nat;
    lemma_power_doubles(b, 26197, n, v5, 0xb69b6f5f4673234_6851bb9cd2c5beed_7a9c63fcb1c55dc2_82d0c2d8bda9a7fdnat, v6);
    let v7: nat = 0x4e309d50febe572_7d9bcf0c55d71697_6c85b3809c924ce1_d2da967ddd53e8dbnat;
    lemma_power_steps(b, 52394, n, v6, 0xeaf12fe121bac44_712060725d4ff4a8_d38d97c46020fce5_e1665ad819c97a81nat, v7);
    let v8: nat = 0x7025e3a0cbb305_6ae1b2735f470d08_3bfca246e3c58675_ae91a9a703384aa6nat;
    lemma_power_doubles(b, 52395, n, v7, 0x14777b1714d30d6_86330b245b83fa42_a8b201c62e2335dd_5059dbc1ec9760b3nat, v8);
}

/// Modulo the field order `n`: 22 to the power `(n - 1) / 499`.
proof fn lemma_modulus_without_499()
    ensures
        power(0x10e8fed36302a74f_0a250e109519f72e_519f34cb5c791bc3_47605eeb3d9a53efnat, 2730, 0x12ab655e9a2ca556_60b44d1e5c37b001_59aa76fed0000001_0a11800000000001nat) == 0x93a242e50f7a885_d7fbdb957accbbec_b588e2cb613ba837_c46c2b4e4a453d24nat,
{
    let b: nat = 0x10e8fed36302a74f_0a250e109519f72e_519f34cb5c791bc3_47605eeb3d9a53efnat;
    let n: nat = 0x12ab655e9a2ca556_60b44d1e5c37b001_59aa76fed0000001_0a11800000000001nat;
    lemma_power_steps(b, 0, n, 1, 0, b);
    let v0: nat = b;
    let v1: nat = 0x101f429080eba199_533b32cf92ce2044_5af67de879b15f48_a3a2c6b3da6f89dbnat;
    lemma_power_doubles(b, 1, n, v0, 0xf510a28c6585d55_eccaba6c0b11c335_5e6518f4923bd620_b820bf1f22a14f46nat, v1);
    let v2: nat = 0x112ba63a569baafb_efbf44d86e5ac838_d543506ea55b6de3_9b488d518f2db0banat;
    lemma_power_doubles(b, 2, n, v1, 0xdec1b35c2c382bc_0598d539c6f537bc_ab6d04d1be582142_92a0a65242f8709fnat, v2);
    let v3: nat = 0x111f505ce3116a3f_ea44e0504b7d1579_f5ce6c51cf9919b8_902ee9aa37d79f84nat;
    lemma_power_steps(b, 4, n, v2, 0xf8d698a85468360_ac2c3fd9f21227a6_c6481f630c4cd5cd_59cf023ce600ac22nat, v3);
    let v4: nat = 0xe97ae0fbe2ee1ce_83a9d311379fde4f_974be679ba8969ac_81be29e885ee6294nat;
    lemma_power_doubles(b, 5, n, v3, 0xfb40e69ab3a0efe_b451ea25006a4e08_4b9de8f35fef532b_52a4558f852ed97cnat, v4);
    let v5: nat = 0x3f8a2a03006dcc1_aea5502d0c1d2231_23d3529bf4230029_700334a0ebc87af9nat;
    lemma_power_doubles(b, 10, n, v4, 0xb67e384e5fd3535_e02067ed88e72a07_edfd8f717d8021e4_1e11f0084d5d2a97nat, v5);
    let v6: nat = 0xfc46b49c968a7c1_1d8f7b86f74c063f_c6fd61b7951ed516_c126642e17b8d8a0nat;
    lemma_power_steps(b, 20, n, v5, 0x398d461c1b379ee_ce170022183cb4d8_df192746a0fb908f_9ac256fa571ab0d7nat, v6);
    let v7: nat = 0xd25a094635fe3aa_e31abc95c7974d9f_09066a4cad6b3cd0_c365713fc4f1165anat;
    lemma_power_doubles(b, 21, n, v6, 0xd50f0e84f82d5fe_9917630aa4c25023_fabf81a5fc61edf6_731f24a5185d4da6nat, v7);
    let v8: nat = 0x7bcec3e30bf3d91_f3c0800e9dfaf605_1f78e39a30d7d84b_78f7b5754ccf862fnat;
    lemma_power_doubles(b, 42, n, v7, 0x9420ee9c4ed5146_912e8f9462dfe6c5_4eaab2036e8fa073_de734c1b9a981175nat, v8);
    let v9: nat = 0xd883313a261ba72_e84647bd2aca420e_84ac6efd9f03517e_f5c3ea1158d509c6nat;
    lemma_power_steps(b, 84, n, v8, 0x7023ea3951c2219_107a01012fac30b6_564d613ecf754a41_203e1d4d90b0791bnat, v9);
    let v10: nat = 0x8f3f6d995bfcdce_2d6c132846ce7981_a2461723fa9dce7a_a906e77dd8cca1acnat;
    lemma_power_doubles(b, 85, n, v9, 0x9ceeb60f24f303d_8cc5006a2d9957bb_e2f944065bb67362_5ae584cf8b0ee378nat, v10);
    let v11: nat = 0xbd3e4d79d74a291_8d788d5024057e6a_d95441fc2fae9f75_485cfb00adf716fanat;
    lemma_power_doubles(b, 170, n, v10, 0x44b1d232eda7474_dbf2ab4459c489f6_b13b6c9526a01372_eaa6435ba242b496nat, v11);
    let v12: nat = 0x116afc44fe8a343a_25650a84b8c54d23_092560567c2d8e66_ef08ef9316747f4bnat;
    lemma_power_steps(b, 340, n, v11, 0xab68d25166a62ef_887a0fc79bd9c1cd_e1b6c580d818a6e8_9a2c8911d411021bnat, v12);
    let v13: nat = 0xe54516cfeadf215_29f209cda8bb9cad_d35ded584ac4cac6_1c663a31b61049e3nat;
    lemma_power_doubles(b, 341, n, v12, 0x10400e2123ce4762_8a456ffd3625e9f8_d13f72c43e5dc731_25393ad4c9333616nat, v13);
    let v14: nat = 0x11197eafa8e017fa_77aa8293a12894ac_5100b8b332f24079_55aa7411ff3b40a1nat;
    lemma_power_doubles(b, 682, n, v13, 0xaff8900e612f1d7_44003b4070c5ff2a_106cc8d288a14427_4fefdaec1677fea8nat, v14);
    let v15: nat = 0x249ecb5b154978a_ef0ee3e8bc068d0a_bc2ccc9f5d4e97c1_14bae006c8b8ba35nat;
    lemma_power_steps(b, 1364, n, v14, 0xf7cf7f9698d8c39_9cbf99df4c0fc6f4_b863d5d9239322cb_09e66c5cf366cf1anat, v15);
    let v16: nat = 0x93a242e50f7a885_d7fbdb957accbbec_b588e2cb613ba837_c46c2b4e4a453d24nat;
    lemma_power_doubles(b, 1365, n, v15, 0x47d4ad55c6043a_db878872928f1ba8_e0faabd695fff6dc_3a6ef76cb95bd1d5nat, v16);
}

/// Part 1 of `lemma_modulus_without_x`.
proof fn lemma_modulus_without_x_part_1()
    ensures
        power(0xccdff9f54e41a68_ee6fb18c4481f37a_803bbcb10d7f80b3_a1b02d8ebd4f8eb7nat, 5320, 0x12ab655e9a2ca556_60b44d1e5c37b001_59aa76fed0000001_0a11800000000001nat) == 0x11e6aadaa565243_ae9ddc9ff0da597a_02fb623fec43890c_e66e9d5a31f7af4fnat,
{
    let b: nat = 0xccdff9f54e41a68_ee6fb18c4481f37a_803bbcb10d7f80b3_a1b02d8ebd4f8eb7nat;
    let n: nat = 0x12ab655e9a2ca556_60b44d1e5c37b001_59aa76fed0000001_0a11800000000001nat;
    lemma_power_steps(b, 0, n, 1, 0, b);
    let v0: nat = b;
    let v1: nat = 0x671801ad83a5486_00680ac71dd9af06_acf18ca2fc44f181_25a8c626bf86dc2fnat;
    lemma_power_doubles(b, 1, n, v0, 0x8c83fdb612e1ada_14196d11b2623f43_c35fa2849eb41204_ce517450dafaaaa2nat, v1);
    let v2: nat = 0x1204fe99cca7bd0b_082b4c6507e66728_644b8e55fb98d075_e1747a7d7505e10anat;
    lemma_power_doubles(b, 2, n, v1, 0x23949aa43d6a016_897327b550b1ed86_89145c870118c878_73559b0feb8eef97nat, v2);
    let v3: nat = 0x25a799c339847ac_dc455fe6305e6731_7800edcd93521a7a_3f8f5c38254d0f04nat;
    lemma_power_steps(b, 4, n, v2, 0xc5bded02120a0ee_c2e21e5115e604d4_a8d6d4f97a516d02_56a0d3e098d05b22nat, v3);
    let v4: nat = 0x7d426fcfc71edaa_506cb163640b22a9_d8257bca81815ef9_35b8b9f553d5c139nat;
    lemma_power_doubles(b, 5, n, v3, 0x4bf22f57b573de_3d6d89a34066f512_f6bc699d2a85e20c_dcfd9553dd73b6d7nat, v4);
    let v5: nat = 0x10e15c5efcf66133_b8a3da4a7afd117c_c5369b5e9324dd93_3d28b166c51ba5f2nat;
    lemma_power_doubles(b, 10, n, v4, 0x3486794d40cd3ca_917e676fd56fa7be_c362b0b4862489ee_9b9555794b9558bfnat, v5);
    let v6: nat = 0x10112bf53737c025_27f30632f40d252e_b1776835efaa653f_9f25e6a08bf956b6nat;
    lemma_power_doubles(b, 20, n, v5, 0xf4338bd57f879a2_ccd863e8d97557db_c968525cf22655d6_05c98a9a54a4820enat, v6);
    let v7: nat = 0x1da1862f95cec39_2fa81010ed7eb876_eb8ddf96ce5fe3ff_3d59df4891b30050nat;
    lemma_power_steps(b, 40, n, v6, 0xb050fc9bc81032b_f85ceee1e3bc950a_d910955de67d20ed_82ea6909ebccefcanat, v7);
    let v8: nat = 0xaa3eef7fc3fb99b_f74fabcf4918fa20_de695e9fc4c8d7ee_41542ffd87c316denat;
    lemma_power_doubles(b, 41, n, v7, 0x2f073719ae6d9a_2261f10870b46f65_04f7fc6821c35443_3f20a086881d0222nat, v8);
    let v9: nat = 0x117ae0b7083baf17_579a7535d6e5c385_80d017272a74ebde_4a41c250e6006242nat;
    lemma_power_steps(b, 82, n, v8, 0x74c3cf78052a137_df3f2dbecb3a3741_f9e07f7e01376ffe_d936cf7351a61a70nat, v9);
    let v10: nat = 0x3df467678de4094_86fe0c196aa42f41_9e81b9a18c7d4f58_3ffb9392bf1495d5nat;
    lemma_power_doubles(b, 83, n, v9, 0x105dc30d42e0d4b0_96225794906d2eac_3106ef6c4a3fc2e6_e3a00e3bfea2032fnat, v10);
    let v11: nat = 0x71c80b53fc25eec_37157c1d69f507c6_bf1bd790e845422a_6a47f306020570f6nat;
    lemma_power_doubles(b, 166, n, v10, 0xcd98adbe061dc1_202c718987f17f65_621540aedd207b07_53fecb2994f43243nat, v11);
    let v12: nat = 0x1f08711075570e7_ce890db6d486aa63_3c9399f51496d81c_2214a45ee8b0fc4cnat;
    lemma_power_doubles(b, 332, n, v11, 0x2b570f5c516f9b7_b9eb4cacab3ca6c9_d3187c12af5bccd5_f173c10a8ac33018nat, v12);
    let v13: nat = 0xb4a9674063e928a_9394e77bccfbe45d_de7832266a1aa4c7_cacfba73081766b3nat;
    lemma_power_steps(b, 664, n, v12, 0x1548c73068d9cfa_c8003652418f5524_8f7664596e5c1e5a_9176b18171d31ba1nat, v13);
    let v14: nat = 0x106baea8cc5f5ff3_6e0d8a749ddc6eb6_78e74e7e2457611a_f755a99c19f187d1nat;
    lemma_power_doubles(b, 665, n, v13, 0x6d43b9f7f08d9de_aed93ad75000911c_c66d9ef0f432ef5b_75242fc4b36b9958nat, v14);
    let v15: nat = 0x6ea38184ee85ae6_543313e86c245655_577b8eb6dcf95ae9_e623ef0d0c82d3fdnat;
    lemma_power_doubles(b, 1330, n, v14, 0xe71514a52606302_52087a66c937dd63_8288f9768c2123b9_85c09a12c50d44a4nat, v15);
    let v16: nat = 0x11e6aadaa565243_ae9ddc9ff0da597a_02fb623fec43890c_e66e9d5a31f7af4fnat;
    lemma_power_doubles(b, 2660, n, v15, 0x28fa9de790d02c1_8ac32ed68472d90a_c754c0aea6ea0dc2_65c0d713828758banat, v16);
}

/// Modulo the field order `n`: 22 to the power `(n - 1) / x`.
proof fn lemma_modulus_without_x()
    ensures
        power(0xccdff9f54e41a68_ee6fb18c4481f37a_803bbcb10d7f80b3_a1b02d8ebd4f8eb7nat, 0x14c95enat, 0x12ab655e9a2ca556_60b44d1e5c37b001_59aa76fed0000001_0a11800000000001nat) == 0x7542143ebfee2d9_b18f71b00a019f6f_5970936354e19d64_9eb0fa9d6041d265nat,
{
    let b: nat = 0xccdff9f54e41a68_ee6fb18c4481f37a_803bbcb10d7f80b3_a1b02d8ebd4f8eb7nat;
    let n: nat = 0x12ab655e9a2ca556_60b44d1e5c37b001_59aa76fed0000001_0a11800000000001nat;
    lemma_modulus_without_x_part_1();
    let v0: nat = 0x11e6aadaa565243_ae9ddc9ff0da597a_02fb623fec43890c_e66e9d5a31f7af4fnat;
    let v1: nat = 0x91eb2ea4d8291b4_c98f7a3dc53e3a48_41a6630cc3b40373_e23d51d9e4e3ef9bnat;
    lemma_power_steps(b, 5320, n, v0, 0xc4711f769147b0_31a03ed4a7cb0a04_47315c8612a688d5_16ad9a05a2c933denat, v1);
    let v2: nat = 0xcf5c4d8f73f1047_b950fcd010a2af4f_bdb242b6e8f35545_5cf563d74e9b2c40nat;
    lemma_power_doubles(b, 5321, n, v1, 0x4747b98ad96a5c2_4313d3470427ae21_65922862b347efe3_76a634ad96899b99nat, v2);
    let v3: nat = 0x464a9dc8df69f3a_f439fc684fe940a7_23b2fb677fd685ae_154f6f9b780faa46nat;
    lemma_power_doubles(b, 10642, n, v2, 0x8ff2260376a12dd_245559bcffa71ee0_e9791dbdfbb33ec8_89fa50ea251665banat, v3);
    let v4: nat = 0xb45c794284041bb_e99b0c10872df0a6_274ddd00647e3e6f_fdf61cdf657de771nat;
    lemma_power_steps(b, 21284, n, v3, 0x3035cb8bebfc2ec_7085e060602e7cf7_6d33df60d51c151d_3ba1c63b57c1a499nat, v4);
    let v5: nat = 0xe641136e2926cf8_fac9586d093fe2d6_d64c362b0ede4b22_c821e9b4c2e6e385nat;
    lemma_power_doubles(b, 21285, n, v4, 0x6ce6bfdaa559fc0_355e86a321bcbb73_f9659f2d6ef96aab_2af69bb43cb03c5cnat, v5);
    let v6: nat = 0xde8d55aea5249d5_4618b382b44ab847_3c0aef165cb3222e_f5de4f164db5b7f6nat;
    lemma_power_doubles(b, 42570, n, v5, 0xb17c34e8ca35566_182648c9b9aa3812_0496e8c7ebe6fe54_44c1ff04e37b6b23nat, v6);
    let v7: nat = 0x61132fcb4b318c_3d0ada7a2ba0bd31_8843ce7587f66a38_0ac08df09fafd3f5nat;
    lemma_power_steps(b, 85140, n, v6, 0x98a3c1548a46d0e_0c9a7120bd9584ef_87026e15995b7542_6fe446741c2b20e5nat, v7);
    let v8: nat = 0xe27935479173bee_d3f48b46a9735eb3_5171aaa20017255a_e87e8dcd22c1ff8fnat;
    lemma_power_doubles(b, 85141, n, v7, 0x1f8c1799dc2c1_312da0bdf8c282af_e55d32b69e7238cb_47c7a1a0abb1c8eanat, v8);
    let v9: nat = 0x4c7baa05365b250_e98125cca21cd168_e8d560eac6365eb8_ffb86a281f02e34enat;
    lemma_power_steps(b, 170282, n, v8, 0x9b5445b1e06929d_7be166105d061751_a986795af6f21cb6_e3a5149fc58d1debnat, v9);
    let v10: nat = 0x4702ded66932bad_6831a6ea77f74bc8_cad1c9d67600f01c_695ba139e8fce1danat;
    lemma_power_doubles(b, 170283, n, v9, 0x13953a6fa27fa45_a6d1169c151c1648_c80b61068b2375ac_422ab23b520e89eanat, v10);
    let v11: nat = 0xb12d4c468846a84_55520281a79ec124_b6da6152975ae9e9_5f6bc3553edbea6enat;
    lemma_power_steps(b, 340566, n, v10, 0x30b42aeed4dffd0_87923b56ef203450_dd84c2bed2cf85ff_5120ce0037767468nat, v11);
    let v12: nat = 0xe9baf110c8069d6_8ae74d1077c0081b_ff58150e67bb4ca7_f5fd08c174bfea40nat;
    lemma_power_doubles(b, 340567, n, v11, 0x69170a2c5dda632_223c6d58c8c03f64_99b79e618f97799f_76cd7ac2c2215d04nat, v12);
    let v13: nat = 0xd9c3df7706ab818_81aa5fd8ee33df33_e2a6c12061172d5c_71ea614442ef795enat;
    lemma_power_steps(b, 681134, n, v12, 0xa04e6b0bc8b0310_9e7e0a01c80e682c_559078b0a3757970_e0a516732ff07a62nat, v13);
    let v14: nat = 0x7542143ebfee2d9_b18f71b00a019f6f_5970936354e19d64_9eb0fa9d6041d265nat;
    lemma_power_doubles(b, 681135, n, v13, 0x9ec0ed562be3bf2_d0e40782da709602_24c8cd87aff3c53a_1dba95eaeecc2c1fnat, v14);
}

/// Part 1 of `lemma_modulus_without_t`.
proof fn lemma_modulus_without_t_part_1()
    ensures
        power(0xcf2493fb395ca90_970db6fae4fed2f5_c2f93037fb602681_ab265b0f9428da11nat, 5320, 0x12ab655e9a2ca556_60b44d1e5c37b001_59aa76fed0000001_0a11800000000001nat) == 0xffab9101e04718f_f88a29c9564afb97_79d693097a493bbf_438ca0e8dd86ad7anat,
{
    let b: nat = 0xcf2493fb395ca90_970db6fae4fed2f5_c2f93037fb602681_ab265b0f9428da11nat;
    let n: nat = 0x12ab655e9a2ca556_60b44d1e5c37b001_59aa76fed0000001_0a11800000000001nat;
    lemma_power_steps(b, 0, n, 1, 0, b);
    let v0: nat = b;
    let v1: nat = 0x34f63b743379d17_5a228a86fa5a6783_4618eb582c4f83bb_1480cd68cf35a139nat;
    lemma_power_doubles(b, 1, n, v0, 0x8fa4d29a5bddf73_bfd9f25065052030_d00ad913c689fa74_cfc0193db7db53e8nat, v1);
    let v2: nat = 0x11684777e2094644_5946a1dc2a9397f8_b6407a644c65f7fd_c456b90de35301c6nat;
    lemma_power_doubles(b, 2, n, v1, 0x963e1c9408809e_b37eca7c0ca94ecc_956c737eac84e2df_ac18d53871cfbcebnat, v2);
    let v3: nat = 0xfd52a6b9f1e6fe9_e8f9287cfc01a1d1_06a2b8a4537b2321_69e5daf9fafc8268nat;
    lemma_power_steps(b, 4, n, v2, 0xc123847312f17cf_4bd0ed32cfaccef6_5ce1e997ada479e5_086f411f8bf937benat, v3);
    let v4: nat = 0x3f22d18292a93d7_0776cc5280c7e9ac_f0273625edb61364_d8128206781a0257nat;
    lemma_power_doubles(b, 5, n, v3, 0xd6d4949e7654f48_b3d0f6319c707a89_68094fbaf2df6023_c4f0f40da713c7e9nat, v4);
    let v5: nat = 0x7c315303bb22d7b_30ca65cce14f7540_f35e20fa249df0af_296a1ccbb02f7ccbnat;
    lemma_power_doubles(b, 10, n, v4, 0xd582ef9c1a785d_4a9f4907b6f68f0c_7322f938604bf7ff_bb39c01e5981fcc6nat, v5);
    let v6: nat = 0x91533764d2b181d_6206dc1f3dab614b_a6a6e0b6d44434b5_f1634d256e37d134nat;
    lemma_power_doubles(b, 20, n, v5, 0x33a26659137c439_638264543738cc2f_17081ad5b4522016_529ed932c12777c5nat, v6);
    let v7: nat = 0x60e38d0404636ef_ace3a76620ed37a6_622d92822f1f2cc3_bf0e1a18b90550d8nat;
    lemma_power_steps(b, 40, n, v6, 0x64c6ade6596b338_94a732d6de50ffd6_5a3a4ade15d1a799_04fe20f5e0f5db9cnat, v7);
    let v8: nat = 0x141a61e142569cf_6b23af2329be5ee0_00eed43a635a863e_8371766ebfbaf9bdnat;
    lemma_power_doubles(b, 41, n, v7, 0x1f6d291ffcdf639_8e7f34e11f39a871_1ddabbfce7354af9_ee5dc105b23cbc83nat, v8);
    let v9: nat = 0xd0ae1e4da1bdaf1_887762ff7ecd1d3b_731fdec0d2d52378_8ac57225a5cc56e1nat;
    lemma_power_steps(b, 82, n, v8, 0xdf0c61e4c15754_3126f446edb74376_0038ef7d9ddb76e3_ceca992597d130acnat, v9);
    let v10: nat = 0xf65416c0717a107_1d89cc964bab131d_cae47c68360ec5af_2f8115557e6a8044nat;
    lemma_power_doubles(b, 83, n, v9, 0x91c8a6bd1ec1f41_597976d45c3ee459_eea8c5203559809b_4c8ff6cd1fa9717dnat, v10);
    let v11: nat = 0x2085747ede6906b_821a4acf53ade0b4_c53df9d10669da87_cb434d6d2eb32ad3nat;
    lemma_power_doubles(b, 166, n, v10, 0xcb2188e109af083_7931be543462d8af_267cfc9d1e0c2b03_eaca8a4c39e0e73dnat, v11);
    let v12: nat = 0x926dc3387a5dde5_23bf744f769a8276_29f4a8dcb77d3e17_3df1eec6ec538fcbnat;
    lemma_power_doubles(b, 332, n, v11, 0x38a680a270c57a_6b2b3e6adcc19fdd_95cafb6eeb8075c9_0e4d57afd1e85a1enat, v12);
    let v13: nat = 0x7bf783c9ec26e06_0518d19bbc4f3bcf_2fcb8db2e1db082f_ac2dab96b2ffeecbnat;
    lemma_power_steps(b, 664, n, v12, 0x658a9c9de6987cb_474b9b9c1853d2ec_c64f62a9faacd44c_6f8a66f2fab77bb0nat, v13);
    let v14: nat = 0x271e5a20b889a11_994da2fd6b2702fd_5689ec405925534f_6824987aef8fed6dnat;
    lemma_power_doubles(b, 665, n, v13, 0x33725fad3d92d44_b517471e7d7c11d9_7dc6774c65e7cdef_513f5758f398278cnat, v14);
    let v15: nat = 0x974e3fbc3982ab2_cf40b7759ab10b35_dcae406c1b965fb7_e86bde6c6d4f9246nat;
    lemma_power_doubles(b, 1330, n, v14, 0x51f73f48aa40b4_a5dca8cd258a414f_8359a26c1335ba70_28256bb434a96e23nat, v15);
    let v16: nat = 0xffab9101e04718f_f88a29c9564afb97_79d693097a493bbf_438ca0e8dd86ad7anat;
    lemma_power_doubles(b, 2660, n, v15, 0x4ca3ec1c1ab8908_d84d47423ed94c53_a150a1776406c971_f35a0d7259413daanat, v16);
}

/// Modulo the field order `n`: 22 to the power `10 * (n - 1) / (x + 1)`.
proof fn lemma_modulus_without_t()
    ensures
        power(0xcf2493fb395ca90_970db6fae4fed2f5_c2f93037fb602681_ab265b0f9428da11nat, 0x14c95enat, 0x12ab655e9a2ca556_60b44d1e5c37b001_59aa76fed0000001_0a11800000000001nat) == 0x68ee8d1eaf5784b_f051cc1f90c8f6ed_7216ffda124edfa7_f91e989773226389nat,
{
    let b: nat = 0xcf2493fb395ca90_970db6fae4fed2f5_c2f93037fb602681_ab265b0f9428da11nat;
    let n: nat = 0x12ab655e9a2ca556_60b44d1e5c37b001_59aa76fed0000001_0a11800000000001nat;
    lemma_modulus_without_t_part_1();
    let v0: nat = 0xffab9101e04718f_f88a29c9564afb97_79d693097a493bbf_438ca0e8dd86ad7anat;
    let v1: nat = 0xa7f1476af70c0ea_05cfac77a496c044_592841f6ca4aeb35_17575de4349df8c8nat;
    lemma_power_steps(b, 5320, n, v0, 0xb14b9490278cc5e_ae28b950f61c7b80_6a45afec6a9a4307_a1899fb2d41d7052nat, v1);
    let v2: nat = 0x67aaac146bf6_a6331fe7df5238f7_86fd3bb856cbed8f_d265ac9f3f21eea0nat;
    lemma_power_doubles(b, 5321, n, v1, 0x5e6bc0adacbcc28_6616ca22fc84538c_cc10e8f5a3053e85_620f562d17f22da0nat, v2);
    let v3: nat = 0xbf06901e86601c6_aae810050926e2d1_ecbdf3e6a9160f82_62449db5b70d5e01nat;
    lemma_power_doubles(b, 10642, n, v2, 0x23fa1f3c6_cf03dcaefee7f1e4_2caa60afc1e86b33_5d6c04fc6ca085ffnat, v3);
    let v4: nat = 0x3e2e3c532ea18dc_0293c684a77a9946_32f10abb644cab5d_0ece2f683b2d6284nat;
    lemma_power_steps(b, 21284, n, v3, 0x8477a01c1f81059_136d5c411e198a8e_420c1829b334f22e_c67ab90892eab58dnat, v4);
    let v5: nat = 0xbf8dc447b0ca900_015ab28b23f56e51_8a0538d53ca35b46_21414caf8793683bnat;
    lemma_power_doubles(b, 21285, n, v4, 0xcf19350206679e_864c4e4c4aa78b44_82a45a784243ac96_b6d9aa0518bdebd5nat, v5);
    let v6: nat = 0x22733ff0d527d68_be1efde772835925_3d430a6a698415fd_3a24dd4b195bfea0nat;
    lemma_power_doubles(b, 42570, n, v5, 0x7ad636dfd09f7a9_94d415a7414d9d27_49f50646a175204b_6b03f82dfed5fef9nat, v6);
    let v7: nat = 0x70e6a3a1a609b21_12cde23383ed03e2_a8ff5b8fab4f4462_ab3f5c6e9e9cdf60nat;
    lemma_power_steps(b, 85140, n, v6, 0x17e3bc0c8be264f_6dfa6063a21f321b_c80dac71c364919c_6dd13a1ab0534940nat, v7);
    let v8: nat = 0x764166f7226919c_3d0b5d310618fd61_ff53549a23e99531_68b55d7bfefc7ec7nat;
    lemma_power_doubles(b, 85141, n, v7, 0x2aac0207328fbdd_302b0c0ce4790247_bad85586a297596e_d4c81cdf80ebe539nat, v8);
    let v9: nat = 0x73f59fba2e50a2b_0c30a295df9d7a2a_dd5be9df46ad9980_e6b755eacedcd7d3nat;
    lemma_power_steps(b, 170282, n, v8, 0x52012deb6a166e5_0a997837fb773b33_b970e8d2b3f18b2a_2dc971dbfef50964nat, v9);
    let v10: nat = 0xa7c11a1196bafe5_fc8b5157fa875842_eddbad8b71a22e68_f1cf339997f28763nat;
    lemma_power_doubles(b, 170283, n, v9, 0x2d03e59f954639d_27a3df38116efda7_81f45edbdaad411d_9ee6a1fda4a99086nat, v10);
    let v11: nat = 0x101224522e7ba3e0_92a89faae4a79e8e_5e39c7abc349b706_62a556cb2193d59bnat;
    lemma_power_steps(b, 340566, n, v10, 0x74546814cbaf39d_a29bf94ace1bde75_91d62726f7783ccd_1079f5c3e04975f8nat, v11);
    let v12: nat = 0x9ad5476e956cf5a_b8664e6067a2e22e_182fd06880937838_0ceb2f1a42615d28nat;
    lemma_power_doubles(b, 340567, n, v11, 0xdd57c63314ff9ee_a2d178c0e3614f5e_002355e796e0c458_d629ab28b5dbeeb1nat, v12);
    let v13: nat = 0x9843fedc4931120_05c2acb2dd292ad5_2fe615eee97da7b6_7dfec2b868f45b53nat;
    lemma_power_steps(b, 681134, n, v12, 0x6b5e96506c07012_c9c57bbb1d02bb16_0fede39024b4caa4_4c2890f69716e455nat, v13);
    let v14: nat = 0x68ee8d1eaf5784b_f051cc1f90c8f6ed_7216ffda124edfa7_f91e989773226389nat;
    lemma_power_doubles(b, 681135, n, v13, 0x4d9daa951196673_ae2c2e31487fa4c1_f6b8a5dfac514ba1_c639ee2a33a9b960nat, v14);
}

/// Part 1 of `lemma_modulus_whole`.
proof fn lemma_modulus_whole_part_1()
    ensures
        power(0x10e8fed36302a74f_0a250e109519f72e_519f34cb5c791bc3_47605eeb3d9a53efnat, 5320, 0x12ab655e9a2ca556_60b44d1e5c37b001_59aa76fed0000001_0a11800000000001nat) == 0x9c38d93c79b1e4d_d883ca4884017749_bafa9a2d7fd3de70_3fdde92ba664215bnat,
{
    let b: nat = 0x10e8fed36302a74f_0a250e109519f72e_519f34cb5c791bc3_47605eeb3d9a53efnat;
    let n: nat = 0x12ab655e9a2ca556_60b44d1e5c37b001_59aa76fed0000001_0a11800000000001nat;
    lemma_power_steps(b, 0, n, 1, 0, b);
    let v0: nat = b;
    let v1: nat = 0x101f429080eba199_533b32cf92ce2044_5af67de879b15f48_a3a2c6b3da6f89dbnat;
    lemma_power_doubles(b, 1, n, v0, 0xf510a28c6585d55_eccaba6c0b11c335_5e6518f4923bd620_b820bf1f22a14f46nat, v1);
    let v2: nat = 0x112ba63a569baafb_efbf44d86e5ac838_d543506ea55b6de3_9b488d518f2db0banat;
    lemma_power_doubles(b, 2, n, v1, 0xdec1b35c2c382bc_0598d539c6f537bc_ab6d04d1be582142_92a0a65242f8709fnat, v2);
    let v3: nat = 0x111f505ce3116a3f_ea44e0504b7d1579_f5ce6c51cf9919b8_902ee9aa37d79f84nat;
    lemma_power_steps(b, 4, n, v2, 0xf8d698a85468360_ac2c3fd9f21227a6_c6481f630c4cd5cd_59cf023ce600ac22nat, v3);
    let v4: nat = 0xe97ae0fbe2ee1ce_83a9d311379fde4f_974be679ba8969ac_81be29e885ee6294nat;
    lemma_power_doubles(b, 5, n, v3, 0xfb40e69ab3a0efe_b451ea25006a4e08_4b9de8f35fef532b_52a4558f852ed97cnat, v4);
    let v5: nat = 0x3f8a2a03006dcc1_aea5502d0c1d2231_23d3529bf4230029_700334a0ebc87af9nat;
    lemma_power_doubles(b, 10, n, v4, 0xb67e384e5fd3535_e02067ed88e72a07_edfd8f717d8021e4_1e11f0084d5d2a97nat, v5);
    let v6: nat = 0x366f6652057771a_22f046c1d968d11a_7c4f129c86affb75_7d2442e193ca316anat;
    lemma_power_doubles(b, 20, n, v5, 0xd840274bbf487f_973ca1f2f5f3ab5a_fc1f242cefbf88ee_18cfcb23f25814c7nat, v6);
    let v7: nat = 0x45f9cae54a0310e_5851b1048c87c00a_97da9e8784a812a1_56db595c8d446aa0nat;
    lemma_power_steps(b, 40, n, v6, 0x314e27ec3ab9ff4_2d4c8725c54df121_b9cc41c960e777d2_c0b797dcf6491556nat, v7);
    let v8: nat = 0x4e5a47adc1583ad_6345563226f3cf99_dd0ebee4fde4f146_eb57b389128e8a2anat;
    lemma_power_doubles(b, 41, n, v7, 0x10647347dd3b025_b0b09873602a0840_f96657162cc00514_eb8b9f33feda59d6nat, v8);
    let v9: nat = 0x6acef58b69ecd1d_1f2a84030f442fb0_60ed7a48812f109a_90d54fe70a895302nat;
    lemma_power_steps(b, 82, n, v8, 0x46f8074928382da_9de65328c007dec5_0b0f1b45ddd4d859_9ce81f4e9e994834nat, v9);
    let v10: nat = 0xaaa8fdf08373519_9cea0f180b8f926d_32beab17daf07330_64166acf879e8aa6nat;
    lemma_power_doubles(b, 83, n, v9, 0x2630d44b360ce91_f28584231aaf7572_54c83437e5dee713_5ecea2f2936fc15enat, v10);
    let v11: nat = 0x28d40ea0381abda_511813336a6f8f9b_34df5ddc0c0e9625_f3d6d29c9abbc0e6nat;
    lemma_power_doubles(b, 166, n, v10, 0x61805f3679f5def_c60f158c30135ad3_8ebd5a08a78482fe_69c27641e943a2benat, v11);
    let v12: nat = 0xb1109fcb04f9fd5_418cd227ce0def8b_0c17c806e97767ef_10b9dd1d043f1efanat;
    lemma_power_doubles(b, 332, n, v11, 0x5949985c575e19_15bcdba28aceed18_d9d4054c83c07e31_688200fb151eafaanat, v12);
    let v13: nat = 0x56290c5e089d140_024cf2d1d0bbbfc7_136122e42892ea26_783e115ced580070nat;
    lemma_power_steps(b, 664, n, v12, 0xa060f2608a5fbca_133371d111474102_118d0b71ee182051_bbaf98f2b504f8f6nat, v13);
    let v14: nat = 0x203a74e5559a67a_174a5730416bd284_596b79a722cf7538_42d7b049d16aa576nat;
    lemma_power_doubles(b, 665, n, v13, 0x18da1e7b29a9828_d1380f6090ea9b7f_ef521778bb20769b_a8d48f45db958b8anat, v14);
    let v15: nat = 0xd14034a2355a4a1_7743fb62389aaabe_39397e41e9d36213_e168f7a4499798ffnat;
    lemma_power_doubles(b, 1330, n, v14, 0x37a2648a4e60ae_b858b9ad0bd50618_05cc694eee97d8e1_8207743fd311b965nat, v15);
    let v16: nat = 0x9c38d93c79b1e4d_d883ca4884017749_bafa9a2d7fd3de70_3fdde92ba664215bnat;
    lemma_power_doubles(b, 2660, n, v15, 0x92950b12f76c334_f5287c1f2e2865c9_ce84c6d5235d05eb_6c98fe939fddaca6nat, v16);
}

/// Modulo the field order `n`: 22 to the power `n - 1`.
proof fn lemma_modulus_whole()
    ensures
        power(0x10e8fed36302a74f_0a250e109519f72e_519f34cb5c791bc3_47605eeb3d9a53efnat, 0x14c95enat, 0x12ab655e9a2ca556_60b44d1e5c37b001_59aa76fed0000001_0a11800000000001nat) == 1,
{
    let b: nat = 0x10e8fed36302a74f_0a250e109519f72e_519f34cb5c791bc3_47605eeb3d9a53efnat;
    let n: nat = 0x12ab655e9a2ca556_60b44d1e5c37b001_59aa76fed0000001_0a11800000000001nat;
    lemma_modulus_whole_part_1();
    let v0: nat = 0x9c38d93c79b1e4d_d883ca4884017749_bafa9a2d7fd3de70_3fdde92ba664215bnat;
    let v1: nat = 0xea22491f257a7a1_cd11567d0d473f94_c732d88334f9cbff_de8351a6323aa14enat;
    lemma_power_steps(b, 5320, n, v0, 0x8d8000fa68a1436_876314e1889c3e56_c24a8594f9026d64_5a8a01c45bcf03a7nat, v1);
    let v2: nat = 0x8a9c4c084162732_f85924f832c56554_de2a0f42b06c5dc4_c69df9718fe5dc76nat;
    lemma_power_doubles(b, 5321, n, v1, 0xb78448b4b3845dc_419616e37d388e90_a80ac9882b864965_5b5888266515574enat, v2);
    let v3: nat = 0x11614ffe6486b19_e1b52dd78c7547e8_1ea046f7cd8da748_4d8c0af1c023c694nat;
    lemma_power_doubles(b, 10642, n, v2, 0x4051ab98c6b626d_dff257f5eeb1952a_5a6abe4027632ded_2724bbea3cd33fd0nat, v3);
    let v4: nat = 0x10c6683ce68066bd_d65752c85deb5ebf_ca5ebfc612958b76_874600477dc99feenat;
    lemma_power_steps(b, 21284, n, v3, 0xfbe04b01400ef3_b4f162f09bd7c949_3641fc6773358a83_ed3f56693606c03enat, v4);
    let v5: nat = 0xdd73c5b02ea023e_7bc250209001abc5_f9cf96a48b83a2bf_ed080d95c594bb54nat;
    lemma_power_doubles(b, 21285, n, v4, 0xf12a1f0c4a3a4bc_bfe789b61877044f_5a0d8364aa49b1be_a8dd2d692e10c5f0nat, v5);
    let v6: nat = 0x5aa6fff83c85926_bdc12a5f8555f237_c28e75e96b5a6ad8_9a0882b9f91be4c4nat;
    lemma_power_doubles(b, 42570, n, v5, 0xa42ccecc2b57b06_4c62d959d83232b6_199afdaf13fa1d12_8aec53c67117eeccnat, v6);
    let v7: nat = 0xac62f88fdbeb9ff_634de8653e1decb6_9dd1dbfce1e72f6b_ee110bde2ed1a513nat;
    lemma_power_steps(b, 85140, n, v6, 0x521c04f6658d792_93881ea1a18735ab_e7992e0ae6b4ceff_372c43bbbf4c79e9nat, v7);
    let v8: nat = 0x5be399d49a333cb_c4542368b4bfe533_19b54d7cedcbe055_1dd5c5c75a6a3b80nat;
    lemma_power_doubles(b, 85141, n, v7, 0x637bf2e8bbf91bb_2b33ed6b3724896b_0c250e94defbba37_249cac2e6d0d43e9nat, v8);
    let v9: nat = 0x74185c41a62b8ae_8bb9122f7b8548b6_4acf3c480cc87167_979abc06fbab3e4dnat;
    lemma_power_steps(b, 170282, n, v8, 0x533ac8d9624f779_423aac879a410996_068f3e1772d0c1bd_c7715dfc29ccce33nat, v9);
    let v10: nat = 0x2f193b398d1e4fc_e41c3f3c786f53c7_8ccf86d6b07339eb_254e440063674368nat;
    lemma_power_doubles(b, 170283, n, v9, 0x2d1ee1c8feb2fcc_b2be98b4f8851474_a470a33f7bd4ef74_36957e52e4a01fc1nat, v10);
    let v11: nat = 0xc87d23e62f7ab2c_ae4dce08b03e77fd_d4bab9090fadc7c0_80aeb97ff03db78dnat;
    lemma_power_steps(b, 340566, n, v10, 0x2aa8fb7ccd2dc10_58e16f19b2b98d62_618521db5d2e5e9c_4064dabdac94ee8bnat, v11);
    let v12: nat = 0x101b0e4735ac83fc_58f69dd68cf6842f_260684ce64ebde19_148dba6b865c24e9nat;
    lemma_power_doubles(b, 340567, n, v11, 0x8690429dc9bf582_b954d7d2761402cc_e38a80b0f254d11a_56f7f483d670bec0nat, v12);
    let v13: nat = 0x12ab655e9a2ca556_60b44d1e5c37b001_59aa76fed0000001_0a11800000000000nat;
    lemma_power_steps(b, 681134, n, v12, 0xe9681e3922e8109_ddc7a5c3c5b812a6_ab5696e2e8812a48_30ac1f0f09280087nat, v13);
    let v14: nat = 1;
    lemma_power_doubles(b, 681135, n, v13, 0x12ab655e9a2ca556_60b44d1e5c37b001_59aa76fed0000001_0a117fffffffffffnat, v14);
}

/// The order of the scalar field is prime: 22 has order `n - 1` modulo it.
pub proof fn lemma_prime_modulus()
    ensures
        is_prime_modulus(0x12ab655e9a2ca556_60b44d1e5c37b001_59aa76fed0000001_0a11800000000001nat),
{
    let n: nat = 0x12ab655e9a2ca556_60b44d1e5c37b001_59aa76fed0000001_0a11800000000001nat;
    let g: nat = 22;
    lemma_modulus_root();
    lemma_modulus_root_x();
    lemma_power_of_power(g, 0x214230000000_0000400000000000nat, 0x8508c00000000001nat, n);
    assert(power(g, 0x114885f32400_0000428460000000_0000400000000000nat, n) == 0xcf2493fb395ca90_970db6fae4fed2f5_c2f93037fb602681_ab265b0f9428da11nat);
    lemma_modulus_root_t();
    lemma_power_of_power(g, 0x214230000000_0000400000000000nat, 0xd4daccccccccccdnat, n);
    assert(power(g, 0x1ba73cb8399_9999a393db333333_3333400000000000nat, n) == 0xccdff9f54e41a68_ee6fb18c4481f37a_803bbcb10d7f80b3_a1b02d8ebd4f8eb7nat);
    lemma_modulus_root_x_t();
    lemma_power_of_power(g, 0x114885f32400_0000428460000000_0000400000000000nat, 0xd4daccccccccccdnat, n);
    assert(power(g, 0xe5ed483093_8c4cd3b69bfadb33_333343d44b333333_3333400000000000nat, n) == 0x10e8fed36302a74f_0a250e109519f72e_519f34cb5c791bc3_47605eeb3d9a53efnat);
    lemma_modulus_without_2();
    lemma_power_of_power(g, 0xe5ed483093_8c4cd3b69bfadb33_333343d44b333333_3333400000000000nat, 681135, n);
    assert(power(g, 0x955b2af4d1652ab_305a268f2e1bd800_acd53b7f68000000_8508c00000000000nat, n) == 0x12ab655e9a2ca556_60b44d1e5c37b001_59aa76fed0000001_0a11800000000000nat);
    lemma_modulus_without_3();
    lemma_power_of_power(g, 0xe5ed483093_8c4cd3b69bfadb33_333343d44b333333_3333400000000000nat, 454090, n);
    assert(power(g, 0x63921ca3364371c_cae6c45f74129000_7338d254f0000000_58b0800000000000nat, n) == 0x12ab655e9a2ca556_60b44d1e5c37b001_14885f3240000000_0000000000000000nat);
    lemma_modulus_without_5();
    lemma_power_of_power(g, 0xe5ed483093_8c4cd3b69bfadb33_333343d44b333333_3333400000000000nat, 272454, n);
    assert(power(g, 0x3bbe112eba28777_acf0dc3945a4bccd_11eee4995ccccccd_0203800000000000nat, n) == 0x232ba5e79e97732_ec72ad2182104954_c06ab18d14963f69_057669302c960922nat);
    lemma_modulus_without_7();
    lemma_power_of_power(g, 0xe5ed483093_8c4cd3b69bfadb33_333343d44b333333_3333400000000000nat, 194610, n);
    assert(power(g, 0x2aac556a84f8555_7b8778bb31bed000_31617eb6b0000000_2602800000000000nat, n) == 0x86a35f4405dc17f_4cc068263d420ea0_f278811d95ba7b6b_ac75fb2665fee553nat);
    lemma_modulus_without_13();
    lemma_power_of_power(g, 0xe5ed483093_8c4cd3b69bfadb33_333343d44b333333_3333400000000000nat, 104790, n);
    assert(power(g, 0x16fa5560bdc0cb7_e00dde8c2e7a7000_1a96f57610000000_1477800000000000nat, n) == 0x7025e3a0cbb305_6ae1b2735f470d08_3bfca246e3c58675_ae91a9a703384aa6nat);
    lemma_modulus_without_499();
    lemma_power_of_power(g, 0xe5ed483093_8c4cd3b69bfadb33_333343d44b333333_3333400000000000nat, 2730, n);
    assert(power(g, 0x993f463d60576_2b49b95b61259000_00b155e9f0000000_0088800000000000nat, n) == 0x93a242e50f7a885_d7fbdb957accbbec_b588e2cb613ba837_c46c2b4e4a453d24nat);
    lemma_modulus_without_x();
    lemma_power_of_power(g, 0x1ba73cb8399_9999a393db333333_3333400000000000nat, 0x14c95enat, n);
    assert(power(g, 0x23ed1347970dec00_cf664765b0000001_0a11800000000000nat, n) == 0x7542143ebfee2d9_b18f71b00a019f6f_5970936354e19d64_9eb0fa9d6041d265nat);
    lemma_modulus_without_t();
    lemma_power_of_power(g, 0x114885f32400_0000428460000000_0000400000000000nat, 0x14c95enat, n);
    assert(power(g, 0x1_6742c0cbe68b3805_66a9dbfb40000005_3257800000000000nat, n) == 0x68ee8d1eaf5784b_f051cc1f90c8f6ed_7216ffda124edfa7_f91e989773226389nat);
    lemma_modulus_whole();
    lemma_power_of_power(g, 0xe5ed483093_8c4cd3b69bfadb33_333343d44b333333_3333400000000000nat, 0x14c95enat, n);
    assert(power(g, 0x12ab655e9a2ca556_60b44d1e5c37b001_59aa76fed0000001_0a11800000000000nat, n) == 1);
    lemma_prime_2();
    lemma_prime_3();
    lemma_prime_5();
    lemma_prime_7();
    lemma_prime_13();
    lemma_prime_499();
    lemma_prime_9586122913090633729();
    lemma_prime_958612291309063373();
    lemma_certified_start(n, g);
    let list_0: Seq<nat> = Seq::empty();
    lemma_certified_push(n, g, list_0, 1, 2);
    let list_1 = list_0.push(2);
    lemma_certified_push(n, g, list_1, 2, 2);
    let list_2 = list_1.push(2);
    lemma_certified_push(n, g, list_2, 4, 2);
    let list_3 = list_2.push(2);
    lemma_certified_push(n, g, list_3, 8, 2);
    let list_4 = list_3.push(2);
    lemma_certified_push(n, g, list_4, 16, 2);
    let list_5 = list_4.push(2);
    lemma_certified_push(n, g, list_5, 32, 2);
    let list_6 = list_5.push(2);
    lemma_certified_push(n, g, list_6, 64, 2);
    let list_7 = list_6.push(2);
    lemma_certified_push(n, g, list_7, 128, 2);
    let list_8 = list_7.push(2);
    lemma_certified_push(n, g, list_8, 256, 2);
    let list_9 = list_8.push(2);
    lemma_certified_push(n, g, list_9, 512, 2);
    let list_10 = list_9.push(2);
    lemma_certified_push(n, g, list_10, 1024, 2);
    let list_11 = list_10.push(2);
    lemma_certified_push(n, g, list_11, 2048, 2);
    let list_12 = list_11.push(2);
    lemma_certified_push(n, g, list_12, 4096, 2);
    let list_13 = list_12.push(2);
    lemma_certified_push(n, g, list_13, 8192, 2);
    let list_14 = list_13.push(2);
    lemma_certified_push(n, g, list_14, 16384, 2);
    let list_15 = list_14.push(2);
    lemma_certified_push(n, g, list_15, 32768, 2);
    let list_16 = list_15.push(2);
    lemma_certified_push(n, g, list_16, 65536, 2);
    let list_17 = list_16.push(2);
    lemma_certified_push(n, g, list_17, 131072, 2);
    let list_18 = list_17.push(2);
    lemma_certified_push(n, g, list_18, 262144, 2);
    let list_19 = list_18.push(2);
    lemma_certified_push(n, g, list_19, 524288, 2);
    let list_20 = list_19.push(2);
    lemma_certified_push(n, g, list_20, 0x100000nat, 2);
    let list_21 = list_20.push(2);
    lemma_certified_push(n, g, list_21, 0x200000nat, 2);
    let list_22 = list_21.push(2);
    lemma_certified_push(n, g, list_22, 0x400000nat, 2);
    let list_23 = list_22.push(2);
    lemma_certified_push(n, g, list_23, 0x800000nat, 2);
    let list_24 = list_23.push(2);
    lemma_certified_push(n, g, list_24, 0x1000000nat, 2);
    let list_25 = list_24.push(2);
    lemma_certified_push(n, g, list_25, 0x2000000nat, 2);
    let list_26 = list_25.push(2);
    lemma_certified_push(n, g, list_26, 0x4000000nat, 2);
    let list_27 = list_26.push(2);
    lemma_certified_push(n, g, list_27, 0x8000000nat, 2);
    let list_28 = list_27.push(2);
    lemma_certified_push(n, g, list_28, 0x10000000nat, 2);
    let list_29 = list_28.push(2);
    lemma_certified_push(n, g, list_29, 0x20000000nat, 2);
    let list_30 = list_29.push(2);
    lemma_certified_push(n, g, list_30, 0x40000000nat, 2);
    let list_31 = list_30.push(2);
    lemma_certified_push(n, g, list_31, 0x80000000nat, 2);
    let list_32 = list_31.push(2);
    lemma_certified_push(n, g, list_32, 0x100000000nat, 2);
    let list_33 = list_32.push(2);
    lemma_certified_push(n, g, list_33, 0x200000000nat, 2);
    let list_34 = list_33.push(2);
    lemma_certified_push(n, g, list_34, 0x400000000nat, 2);
    let list_35 = list_34.push(2);
    lemma_certified_push(n, g, list_35, 0x800000000nat, 2);
    let list_36 = list_35.push(2);
    lemma_certified_push(n, g, list_36, 0x1000000000nat, 2);
    let list_37 = list_36.push(2);
    lemma_certified_push(n, g, list_37, 0x2000000000nat, 2);
    let list_38 = list_37.push(2);
    lemma_certified_push(n, g, list_38, 0x4000000000nat, 2);
    let list_39 = list_38.push(2);
    lemma_certified_push(n, g, list_39, 0x8000000000nat, 2);
    let list_40 = list_39.push(2);
    lemma_certified_push(n, g, list_40, 0x10000000000nat, 2);
    let list_41 = list_40.push(2);
    lemma_certified_push(n, g, list_41, 0x20000000000nat, 2);
    let list_42 = list_41.push(2);
    lemma_certified_push(n, g, list_42, 0x40000000000nat, 2);
    let list_43 = list_42.push(2);
    lemma_certified_push(n, g, list_43, 0x80000000000nat, 2);
    let list_44 = list_43.push(2);
    lemma_certified_push(n, g, list_44, 0x100000000000nat, 2);
    let list_45 = list_44.push(2);
    lemma_certified_push(n, g, list_45, 0x200000000000nat, 2);
    let list_46 = list_45.push(2);
    lemma_certified_push(n, g, list_46, 0x400000000000nat, 2);
    let list_47 = list_46.push(2);
    lemma_certified_push(n, g, list_47, 0x800000000000nat, 3);
    let list_48 = list_47.push(3);
    lemma_certified_push(n, g, list_48, 0x1800000000000nat, 5);
    let list_49 = list_48.push(5);
    lemma_certified_push(n, g, list_49, 0x7800000000000nat, 7);
    let list_50 = list_49.push(7);
    lemma_certified_push(n, g, list_50, 0x34800000000000nat, 13);
    let list_51 = list_50.push(13);
    lemma_certified_push(n, g, list_51, 0x2aa800000000000nat, 499);
    let list_52 = list_51.push(499);
    lemma_certified_push(n, g, list_52, 0x5_3257800000000000nat, 0x8508c00000000001nat);
    let list_53 = list_52.push(0x8508c00000000001nat);
    lemma_certified_push(n, g, list_53, 0x2_b354edfda0000005_3257800000000000nat, 0x8508c00000000001nat);
    let list_54 = list_53.push(0x8508c00000000001nat);
    lemma_certified_push(n, g, list_54, 0x1_6742c0cbe68b3805_66a9dbfb40000005_3257800000000000nat, 0xd4daccccccccccdnat);
    let list_55 = list_54.push(0xd4daccccccccccdnat);
    lemma_lucas_certified(n, g, list_55);
}

/// The order of the scalar field is prime.
pub proof fn lemma_modulus_is_prime()
    ensures
        is_prime_modulus(modulus()),
{
    lemma_prime_modulus();
}

} // verus!
