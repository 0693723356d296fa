//! The sRGB transfer curve at the resolution of 8-bit channels.
//!
//! The curve is sampled at every half step of the 8-bit scale: sample `2k` is the
//! linear light of level `k`, and sample `2k - 1` is the linear light at which the
//! gamma-encoded value lies exactly half-way between levels `k - 1` and `k`, that
//! is, the point from which an encoded value rounds to `k`.
use vstd::prelude::*;

verus! {

/// Number of half steps on the 8-bit scale (`2 * 255`).
pub const HALF_STEPS: u16 = 510;

/// Linear light handed to the encoder is in billionths times this factor
/// (the precision that the colour matrices carry).
pub const SUB_STEPS: i128 = 10_000_000;

/// Smallest distance between two neighbouring samples of the curve.
pub const MIN_SAMPLE_GAP: u64 = 151_763;

/// Linear light, in billionths, of the gamma-encoded value `j / 510`: `j / 510 / 12.92`
/// up to 0.04045, `((j / 510 + 0.055) / 1.055)^2.4` above it, rounded to the nearest billionth.
#[verifier::opaque]
pub open spec fn transfer_sample(j: u16) -> int {
    match j {
        0 => 0,
        1 => 151_763,
        2 => 303_527,
        3 => 455_290,
        4 => 607_054,
        5 => 758_817,
        6 => 910_581,
        7 => 1_062_344,
        8 => 1_214_108,
        9 => 1_365_871,
        10 => 1_517_635,
        11 => 1_669_398,
        12 => 1_821_162,
        13 => 1_972_925,
        14 => 2_124_689,
        15 => 2_276_452,
        16 => 2_428_216,
        17 => 2_579_979,
        18 => 2_731_743,
        19 => 2_883_506,
        20 => 3_035_270,
        21 => 3_188_301,
        22 => 3_346_536,
        23 => 3_509_259,
        24 => 3_676_507,
        25 => 3_848_315,
        26 => 4_024_717,
        27 => 4_205_748,
        28 => 4_391_442,
        29 => 4_581_833,
        30 => 4_776_953,
        31 => 4_976_837,
        32 => 5_181_517,
        33 => 5_391_024,
        34 => 5_605_392,
        35 => 5_824_651,
        36 => 6_048_833,
        37 => 6_277_969,
        38 => 6_512_091,
        39 => 6_751_228,
        40 => 6_995_410,
        41 => 7_244_668,
        42 => 7_499_032,
        43 => 7_758_530,
        44 => 8_023_193,
        45 => 8_293_048,
        46 => 8_568_126,
        47 => 8_848_453,
        48 => 9_134_059,
        49 => 9_424_971,
        50 => 9_721_217,
        51 => 10_022_826,
        52 => 10_329_823,
        53 => 10_642_237,
        54 => 10_960_094,
        55 => 11_283_421,
        56 => 11_612_245,
        57 => 11_946_592,
        58 => 12_286_488,
        59 => 12_631_960,
        60 => 12_983_032,
        61 => 13_339_732,
        62 => 13_702_083,
        63 => 14_070_112,
        64 => 14_443_844,
        65 => 14_823_303,
        66 => 15_208_514,
        67 => 15_599_503,
        68 => 15_996_293,
        69 => 16_398_910,
        70 => 16_807_376,
        71 => 17_221_716,
        72 => 17_641_954,
        73 => 18_068_115,
        74 => 18_500_220,
        75 => 18_938_294,
        76 => 19_382_361,
        77 => 19_832_443,
        78 => 20_288_563,
        79 => 20_750_745,
        80 => 21_219_010,
        81 => 21_693_383,
        82 => 22_173_885,
        83 => 22_660_538,
        84 => 23_153_366,
        85 => 23_652_390,
        86 => 24_157_632,
        87 => 24_669_115,
        88 => 25_186_860,
        89 => 25_710_888,
        90 => 26_241_222,
        91 => 26_777_883,
        92 => 27_320_892,
        93 => 27_870_270,
        94 => 28_426_040,
        95 => 28_988_221,
        96 => 29_556_834,
        97 => 30_131_902,
        98 => 30_713_444,
        99 => 31_301_481,
        100 => 31_896_033,
        101 => 32_497_122,
        102 => 33_104_767,
        103 => 33_718_988,
        104 => 34_339_807,
        105 => 34_967_242,
        106 => 35_601_315,
        107 => 36_242_044,
        108 => 36_889_450,
        109 => 37_543_553,
        110 => 38_204_372,
        111 => 38_871_926,
        112 => 39_546_235,
        113 => 40_227_319,
        114 => 40_915_197,
        115 => 41_609_888,
        116 => 42_311_411,
        117 => 43_019_785,
        118 => 43_735_029,
        119 => 44_457_163,
        120 => 45_186_204,
        121 => 45_922_173,
        122 => 46_665_086,
        123 => 47_414_964,
        124 => 48_171_824,
        125 => 48_935_685,
        126 => 49_706_566,
        127 => 50_484_484,
        128 => 51_269_458,
        129 => 52_061_507,
        130 => 52_860_647,
        131 => 53_666_898,
        132 => 54_480_276,
        133 => 55_300_801,
        134 => 56_128_490,
        135 => 56_963_360,
        136 => 57_805_430,
        137 => 58_654_717,
        138 => 59_511_238,
        139 => 60_375_011,
        140 => 61_246_054,
        141 => 62_124_384,
        142 => 63_010_018,
        143 => 63_902_973,
        144 => 64_803_267,
        145 => 65_710_916,
        146 => 66_625_939,
        147 => 67_548_351,
        148 => 68_478_170,
        149 => 69_415_413,
        150 => 70_360_096,
        151 => 71_312_236,
        152 => 72_271_851,
        153 => 73_238_956,
        154 => 74_213_568,
        155 => 75_195_705,
        156 => 76_185_381,
        157 => 77_182_615,
        158 => 78_187_422,
        159 => 79_199_818,
        160 => 80_219_820,
        161 => 81_247_445,
        162 => 82_282_707,
        163 => 83_325_624,
        164 => 84_376_212,
        165 => 85_434_486,
        166 => 86_500_462,
        167 => 87_574_157,
        168 => 88_655_586,
        169 => 89_744_766,
        170 => 90_841_711,
        171 => 91_946_438,
        172 => 93_058_963,
        173 => 94_179_300,
        174 => 95_307_467,
        175 => 96_443_477,
        176 => 97_587_347,
        177 => 98_739_092,
        178 => 99_898_728,
        179 => 101_066_270,
        180 => 102_241_733,
        181 => 103_425_133,
        182 => 104_616_484,
        183 => 105_815_802,
        184 => 107_023_103,
        185 => 108_238_401,
        186 => 109_461_711,
        187 => 110_693_048,
        188 => 111_932_428,
        189 => 113_179_865,
        190 => 114_435_374,
        191 => 115_698_970,
        192 => 116_970_668,
        193 => 118_250_482,
        194 => 119_538_428,
        195 => 120_834_520,
        196 => 122_138_772,
        197 => 123_451_200,
        198 => 124_771_818,
        199 => 126_100_640,
        200 => 127_437_680,
        201 => 128_782_955,
        202 => 130_136_477,
        203 => 131_498_261,
        204 => 132_868_322,
        205 => 134_246_673,
        206 => 135_633_330,
        207 => 137_028_306,
        208 => 138_431_615,
        209 => 139_843_272,
        210 => 141_263_291,
        211 => 142_691_686,
        212 => 144_128_471,
        213 => 145_573_660,
        214 => 147_027_266,
        215 => 148_489_305,
        216 => 149_959_790,
        217 => 151_438_734,
        218 => 152_926_152,
        219 => 154_422_057,
        220 => 155_926_464,
        221 => 157_439_385,
        222 => 158_960_835,
        223 => 160_490_827,
        224 => 162_029_376,
        225 => 163_576_493,
        226 => 165_132_195,
        227 => 166_696_492,
        228 => 168_269_400,
        229 => 169_850_932,
        230 => 171_441_101,
        231 => 173_039_920,
        232 => 174_647_404,
        233 => 176_263_564,
        234 => 177_888_416,
        235 => 179_521_971,
        236 => 181_164_244,
        237 => 182_815_248,
        238 => 184_474_995,
        239 => 186_143_498,
        240 => 187_820_772,
        241 => 189_506_829,
        242 => 191_201_683,
        243 => 192_905_345,
        244 => 194_617_830,
        245 => 196_339_151,
        246 => 198_069_320,
        247 => 199_808_350,
        248 => 201_556_254,
        249 => 203_313_045,
        250 => 205_078_736,
        251 => 206_853_340,
        252 => 208_636_870,
        253 => 210_429_338,
        254 => 212_230_757,
        255 => 214_041_140,
        256 => 215_860_500,
        257 => 217_688_849,
        258 => 219_526_200,
        259 => 221_372_565,
        260 => 223_227_957,
        261 => 225_092_389,
        262 => 226_965_874,
        263 => 228_848_422,
        264 => 230_740_049,
        265 => 232_640_764,
        266 => 234_550_582,
        267 => 236_469_515,
        268 => 238_397_574,
        269 => 240_334_772,
        270 => 242_281_122,
        271 => 244_236_636,
        272 => 246_201_327,
        273 => 248_175_205,
        274 => 250_158_285,
        275 => 252_150_577,
        276 => 254_152_094,
        277 => 256_162_849,
        278 => 258_182_853,
        279 => 260_212_118,
        280 => 262_250_658,
        281 => 264_298_482,
        282 => 266_355_605,
        283 => 268_422_037,
        284 => 270_497_791,
        285 => 272_582_879,
        286 => 274_677_312,
        287 => 276_781_103,
        288 => 278_894_263,
        289 => 281_016_805,
        290 => 283_148_740,
        291 => 285_290_081,
        292 => 287_440_838,
        293 => 289_601_024,
        294 => 291_770_650,
        295 => 293_949_728,
        296 => 296_138_271,
        297 => 298_336_289,
        298 => 300_543_794,
        299 => 302_760_799,
        300 => 304_987_314,
        301 => 307_223_352,
        302 => 309_468_923,
        303 => 311_724_040,
        304 => 313_988_713,
        305 => 316_262_956,
        306 => 318_546_778,
        307 => 320_840_192,
        308 => 323_143_209,
        309 => 325_455_841,
        310 => 327_778_098,
        311 => 330_109_993,
        312 => 332_451_536,
        313 => 334_802_740,
        314 => 337_163_615,
        315 => 339_534_173,
        316 => 341_914_425,
        317 => 344_304_382,
        318 => 346_704_056,
        319 => 349_113_458,
        320 => 351_532_600,
        321 => 353_961_491,
        322 => 356_400_144,
        323 => 358_848_570,
        324 => 361_306_780,
        325 => 363_774_785,
        326 => 366_252_596,
        327 => 368_740_224,
        328 => 371_237_680,
        329 => 373_744_977,
        330 => 376_262_123,
        331 => 378_789_131,
        332 => 381_326_011,
        333 => 383_872_775,
        334 => 386_429_434,
        335 => 388_995_998,
        336 => 391_572_478,
        337 => 394_158_885,
        338 => 396_755_231,
        339 => 399_361_525,
        340 => 401_977_780,
        341 => 404_604_005,
        342 => 407_240_212,
        343 => 409_886_411,
        344 => 412_542_613,
        345 => 415_208_830,
        346 => 417_885_071,
        347 => 420_571_347,
        348 => 423_267_670,
        349 => 425_974_050,
        350 => 428_690_497,
        351 => 431_417_022,
        352 => 434_153_636,
        353 => 436_900_350,
        354 => 439_657_174,
        355 => 442_424_119,
        356 => 445_201_195,
        357 => 447_988_412,
        358 => 450_785_783,
        359 => 453_593_316,
        360 => 456_411_023,
        361 => 459_238_914,
        362 => 462_077_000,
        363 => 464_925_290,
        364 => 467_783_796,
        365 => 470_652_528,
        366 => 473_531_496,
        367 => 476_420_711,
        368 => 479_320_183,
        369 => 482_229_923,
        370 => 485_149_940,
        371 => 488_080_246,
        372 => 491_020_850,
        373 => 493_971_763,
        374 => 496_932_995,
        375 => 499_904_557,
        376 => 502_886_458,
        377 => 505_878_709,
        378 => 508_881_321,
        379 => 511_894_303,
        380 => 514_917_665,
        381 => 517_951_419,
        382 => 520_995_573,
        383 => 524_050_139,
        384 => 527_115_126,
        385 => 530_190_544,
        386 => 533_276_404,
        387 => 536_372_716,
        388 => 539_479_489,
        389 => 542_596_734,
        390 => 545_724_461,
        391 => 548_862_680,
        392 => 552_011_402,
        393 => 555_170_635,
        394 => 558_340_390,
        395 => 561_520_677,
        396 => 564_711_506,
        397 => 567_912_887,
        398 => 571_124_829,
        399 => 574_347_344,
        400 => 577_580_440,
        401 => 580_824_128,
        402 => 584_078_418,
        403 => 587_343_319,
        404 => 590_618_841,
        405 => 593_904_994,
        406 => 597_201_788,
        407 => 600_509_233,
        408 => 603_827_339,
        409 => 607_156_115,
        410 => 610_495_571,
        411 => 613_845_717,
        412 => 617_206_562,
        413 => 620_578_117,
        414 => 623_960_392,
        415 => 627_353_395,
        416 => 630_757_136,
        417 => 634_171_626,
        418 => 637_596_874,
        419 => 641_032_889,
        420 => 644_479_682,
        421 => 647_937_261,
        422 => 651_405_637,
        423 => 654_884_819,
        424 => 658_374_817,
        425 => 661_875_640,
        426 => 665_387_298,
        427 => 668_909_801,
        428 => 672_443_157,
        429 => 675_987_377,
        430 => 679_542_470,
        431 => 683_108_445,
        432 => 686_685_312,
        433 => 690_273_081,
        434 => 693_871_761,
        435 => 697_481_362,
        436 => 701_101_892,
        437 => 704_733_362,
        438 => 708_375_780,
        439 => 712_029_156,
        440 => 715_693_501,
        441 => 719_368_822,
        442 => 723_055_129,
        443 => 726_752_432,
        444 => 730_460_740,
        445 => 734_180_063,
        446 => 737_910_409,
        447 => 741_651_788,
        448 => 745_404_210,
        449 => 749_167_683,
        450 => 752_942_217,
        451 => 756_727_821,
        452 => 760_524_505,
        453 => 764_332_277,
        454 => 768_151_147,
        455 => 771_981_125,
        456 => 775_822_218,
        457 => 779_674_438,
        458 => 783_537_792,
        459 => 787_412_289,
        460 => 791_297_940,
        461 => 795_194_753,
        462 => 799_102_738,
        463 => 803_021_903,
        464 => 806_952_258,
        465 => 810_893_811,
        466 => 814_846_572,
        467 => 818_810_550,
        468 => 822_785_754,
        469 => 826_772_194,
        470 => 830_769_877,
        471 => 834_778_813,
        472 => 838_799_012,
        473 => 842_830_482,
        474 => 846_873_232,
        475 => 850_927_271,
        476 => 854_992_608,
        477 => 859_069_253,
        478 => 863_157_213,
        479 => 867_256_499,
        480 => 871_367_119,
        481 => 875_489_082,
        482 => 879_622_397,
        483 => 883_767_073,
        484 => 887_923_118,
        485 => 892_090_542,
        486 => 896_269_353,
        487 => 900_459_561,
        488 => 904_661_174,
        489 => 908_874_202,
        490 => 913_098_652,
        491 => 917_334_534,
        492 => 921_581_856,
        493 => 925_840_628,
        494 => 930_110_858,
        495 => 934_392_556,
        496 => 938_685_728,
        497 => 942_990_386,
        498 => 947_306_537,
        499 => 951_634_190,
        500 => 955_973_353,
        501 => 960_324_036,
        502 => 964_686_248,
        503 => 969_059_996,
        504 => 973_445_290,
        505 => 977_842_139,
        506 => 982_250_550,
        507 => 986_670_534,
        508 => 991_102_097,
        509 => 995_545_250,
        510 => 1_000_000_000,
        _ => 0,
    }
}

/// Looks up `transfer_sample(j)`.
pub fn sample(j: u16) -> (r: u64)
    requires
        j <= HALF_STEPS,
    ensures
        r == transfer_sample(j),
{
    proof {
        reveal(transfer_sample);
    }
    match j {
        0 => 0,
        1 => 151_763,
        2 => 303_527,
        3 => 455_290,
        4 => 607_054,
        5 => 758_817,
        6 => 910_581,
        7 => 1_062_344,
        8 => 1_214_108,
        9 => 1_365_871,
        10 => 1_517_635,
        11 => 1_669_398,
        12 => 1_821_162,
        13 => 1_972_925,
        14 => 2_124_689,
        15 => 2_276_452,
        16 => 2_428_216,
        17 => 2_579_979,
        18 => 2_731_743,
        19 => 2_883_506,
        20 => 3_035_270,
        21 => 3_188_301,
        22 => 3_346_536,
        23 => 3_509_259,
        24 => 3_676_507,
        25 => 3_848_315,
        26 => 4_024_717,
        27 => 4_205_748,
        28 => 4_391_442,
        29 => 4_581_833,
        30 => 4_776_953,
        31 => 4_976_837,
        32 => 5_181_517,
        33 => 5_391_024,
        34 => 5_605_392,
        35 => 5_824_651,
        36 => 6_048_833,
        37 => 6_277_969,
        38 => 6_512_091,
        39 => 6_751_228,
        40 => 6_995_410,
        41 => 7_244_668,
        42 => 7_499_032,
        43 => 7_758_530,
        44 => 8_023_193,
        45 => 8_293_048,
        46 => 8_568_126,
        47 => 8_848_453,
        48 => 9_134_059,
        49 => 9_424_971,
        50 => 9_721_217,
        51 => 10_022_826,
        52 => 10_329_823,
        53 => 10_642_237,
        54 => 10_960_094,
        55 => 11_283_421,
        56 => 11_612_245,
        57 => 11_946_592,
        58 => 12_286_488,
        59 => 12_631_960,
        60 => 12_983_032,
        61 => 13_339_732,
        62 => 13_702_083,
        63 => 14_070_112,
        64 => 14_443_844,
        65 => 14_823_303,
        66 => 15_208_514,
        67 => 15_599_503,
        68 => 15_996_293,
        69 => 16_398_910,
        70 => 16_807_376,
        71 => 17_221_716,
        72 => 17_641_954,
        73 => 18_068_115,
        74 => 18_500_220,
        75 => 18_938_294,
        76 => 19_382_361,
        77 => 19_832_443,
        78 => 20_288_563,
        79 => 20_750_745,
        80 => 21_219_010,
        81 => 21_693_383,
        82 => 22_173_885,
        83 => 22_660_538,
        84 => 23_153_366,
        85 => 23_652_390,
        86 => 24_157_632,
        87 => 24_669_115,
        88 => 25_186_860,
        89 => 25_710_888,
        90 => 26_241_222,
        91 => 26_777_883,
        92 => 27_320_892,
        93 => 27_870_270,
        94 => 28_426_040,
        95 => 28_988_221,
        96 => 29_556_834,
        97 => 30_131_902,
        98 => 30_713_444,
        99 => 31_301_481,
        100 => 31_896_033,
        101 => 32_497_122,
        102 => 33_104_767,
        103 => 33_718_988,
        104 => 34_339_807,
        105 => 34_967_242,
        106 => 35_601_315,
        107 => 36_242_044,
        108 => 36_889_450,
        109 => 37_543_553,
        110 => 38_204_372,
        111 => 38_871_926,
        112 => 39_546_235,
        113 => 40_227_319,
        114 => 40_915_197,
        115 => 41_609_888,
        116 => 42_311_411,
        117 => 43_019_785,
        118 => 43_735_029,
        119 => 44_457_163,
        120 => 45_186_204,
        121 => 45_922_173,
        122 => 46_665_086,
        123 => 47_414_964,
        124 => 48_171_824,
        125 => 48_935_685,
        126 => 49_706_566,
        127 => 50_484_484,
        128 => 51_269_458,
        129 => 52_061_507,
        130 => 52_860_647,
        131 => 53_666_898,
        132 => 54_480_276,
        133 => 55_300_801,
        134 => 56_128_490,
        135 => 56_963_360,
        136 => 57_805_430,
        137 => 58_654_717,
        138 => 59_511_238,
        139 => 60_375_011,
        140 => 61_246_054,
        141 => 62_124_384,
        142 => 63_010_018,
        143 => 63_902_973,
        144 => 64_803_267,
        145 => 65_710_916,
        146 => 66_625_939,
        147 => 67_548_351,
        148 => 68_478_170,
        149 => 69_415_413,
        150 => 70_360_096,
        151 => 71_312_236,
        152 => 72_271_851,
        153 => 73_238_956,
        154 => 74_213_568,
        155 => 75_195_705,
        156 => 76_185_381,
        157 => 77_182_615,
        158 => 78_187_422,
        159 => 79_199_818,
        160 => 80_219_820,
        161 => 81_247_445,
        162 => 82_282_707,
        163 => 83_325_624,
        164 => 84_376_212,
        165 => 85_434_486,
        166 => 86_500_462,
        167 => 87_574_157,
        168 => 88_655_586,
        169 => 89_744_766,
        170 => 90_841_711,
        171 => 91_946_438,
        172 => 93_058_963,
        173 => 94_179_300,
        174 => 95_307_467,
        175 => 96_443_477,
        176 => 97_587_347,
        177 => 98_739_092,
        178 => 99_898_728,
        179 => 101_066_270,
        180 => 102_241_733,
        181 => 103_425_133,
        182 => 104_616_484,
        183 => 105_815_802,
        184 => 107_023_103,
        185 => 108_238_401,
        186 => 109_461_711,
        187 => 110_693_048,
        188 => 111_932_428,
        189 => 113_179_865,
        190 => 114_435_374,
        191 => 115_698_970,
        192 => 116_970_668,
        193 => 118_250_482,
        194 => 119_538_428,
        195 => 120_834_520,
        196 => 122_138_772,
        197 => 123_451_200,
        198 => 124_771_818,
        199 => 126_100_640,
        200 => 127_437_680,
        201 => 128_782_955,
        202 => 130_136_477,
        203 => 131_498_261,
        204 => 132_868_322,
        205 => 134_246_673,
        206 => 135_633_330,
        207 => 137_028_306,
        208 => 138_431_615,
        209 => 139_843_272,
        210 => 141_263_291,
        211 => 142_691_686,
        212 => 144_128_471,
        213 => 145_573_660,
        214 => 147_027_266,
        215 => 148_489_305,
        216 => 149_959_790,
        217 => 151_438_734,
        218 => 152_926_152,
        219 => 154_422_057,
        220 => 155_926_464,
        221 => 157_439_385,
        222 => 158_960_835,
        223 => 160_490_827,
        224 => 162_029_376,
        225 => 163_576_493,
        226 => 165_132_195,
        227 => 166_696_492,
        228 => 168_269_400,
        229 => 169_850_932,
        230 => 171_441_101,
        231 => 173_039_920,
        232 => 174_647_404,
        233 => 176_263_564,
        234 => 177_888_416,
        235 => 179_521_971,
        236 => 181_164_244,
        237 => 182_815_248,
        238 => 184_474_995,
        239 => 186_143_498,
        240 => 187_820_772,
        241 => 189_506_829,
        242 => 191_201_683,
        243 => 192_905_345,
        244 => 194_617_830,
        245 => 196_339_151,
        246 => 198_069_320,
        247 => 199_808_350,
        248 => 201_556_254,
        249 => 203_313_045,
        250 => 205_078_736,
        251 => 206_853_340,
        252 => 208_636_870,
        253 => 210_429_338,
        254 => 212_230_757,
        255 => 214_041_140,
        256 => 215_860_500,
        257 => 217_688_849,
        258 => 219_526_200,
        259 => 221_372_565,
        260 => 223_227_957,
        261 => 225_092_389,
        262 => 226_965_874,
        263 => 228_848_422,
        264 => 230_740_049,
        265 => 232_640_764,
        266 => 234_550_582,
        267 => 236_469_515,
        268 => 238_397_574,
        269 => 240_334_772,
        270 => 242_281_122,
        271 => 244_236_636,
        272 => 246_201_327,
        273 => 248_175_205,
        274 => 250_158_285,
        275 => 252_150_577,
        276 => 254_152_094,
        277 => 256_162_849,
        278 => 258_182_853,
        279 => 260_212_118,
        280 => 262_250_658,
        281 => 264_298_482,
        282 => 266_355_605,
        283 => 268_422_037,
        284 => 270_497_791,
        285 => 272_582_879,
        286 => 274_677_312,
        287 => 276_781_103,
        288 => 278_894_263,
        289 => 281_016_805,
        290 => 283_148_740,
        291 => 285_290_081,
        292 => 287_440_838,
        293 => 289_601_024,
        294 => 291_770_650,
        295 => 293_949_728,
        296 => 296_138_271,
        297 => 298_336_289,
        298 => 300_543_794,
        299 => 302_760_799,
        300 => 304_987_314,
        301 => 307_223_352,
        302 => 309_468_923,
        303 => 311_724_040,
        304 => 313_988_713,
        305 => 316_262_956,
        306 => 318_546_778,
        307 => 320_840_192,
        308 => 323_143_209,
        309 => 325_455_841,
        310 => 327_778_098,
        311 => 330_109_993,
        312 => 332_451_536,
        313 => 334_802_740,
        314 => 337_163_615,
        315 => 339_534_173,
        316 => 341_914_425,
        317 => 344_304_382,
        318 => 346_704_056,
        319 => 349_113_458,
        320 => 351_532_600,
        321 => 353_961_491,
        322 => 356_400_144,
        323 => 358_848_570,
        324 => 361_306_780,
        325 => 363_774_785,
        326 => 366_252_596,
        327 => 368_740_224,
        328 => 371_237_680,
        329 => 373_744_977,
        330 => 376_262_123,
        331 => 378_789_131,
        332 => 381_326_011,
        333 => 383_872_775,
        334 => 386_429_434,
        335 => 388_995_998,
        336 => 391_572_478,
        337 => 394_158_885,
        338 => 396_755_231,
        339 => 399_361_525,
        340 => 401_977_780,
        341 => 404_604_005,
        342 => 407_240_212,
        343 => 409_886_411,
        344 => 412_542_613,
        345 => 415_208_830,
        346 => 417_885_071,
        347 => 420_571_347,
        348 => 423_267_670,
        349 => 425_974_050,
        350 => 428_690_497,
        351 => 431_417_022,
        352 => 434_153_636,
        353 => 436_900_350,
        354 => 439_657_174,
        355 => 442_424_119,
        356 => 445_201_195,
        357 => 447_988_412,
        358 => 450_785_783,
        359 => 453_593_316,
        360 => 456_411_023,
        361 => 459_238_914,
        362 => 462_077_000,
        363 => 464_925_290,
        364 => 467_783_796,
        365 => 470_652_528,
        366 => 473_531_496,
        367 => 476_420_711,
        368 => 479_320_183,
        369 => 482_229_923,
        370 => 485_149_940,
        371 => 488_080_246,
        372 => 491_020_850,
        373 => 493_971_763,
        374 => 496_932_995,
        375 => 499_904_557,
        376 => 502_886_458,
        377 => 505_878_709,
        378 => 508_881_321,
        379 => 511_894_303,
        380 => 514_917_665,
        381 => 517_951_419,
        382 => 520_995_573,
        383 => 524_050_139,
        384 => 527_115_126,
        385 => 530_190_544,
        386 => 533_276_404,
        387 => 536_372_716,
        388 => 539_479_489,
        389 => 542_596_734,
        390 => 545_724_461,
        391 => 548_862_680,
        392 => 552_011_402,
        393 => 555_170_635,
        394 => 558_340_390,
        395 => 561_520_677,
        396 => 564_711_506,
        397 => 567_912_887,
        398 => 571_124_829,
        399 => 574_347_344,
        400 => 577_580_440,
        401 => 580_824_128,
        402 => 584_078_418,
        403 => 587_343_319,
        404 => 590_618_841,
        405 => 593_904_994,
        406 => 597_201_788,
        407 => 600_509_233,
        408 => 603_827_339,
        409 => 607_156_115,
        410 => 610_495_571,
        411 => 613_845_717,
        412 => 617_206_562,
        413 => 620_578_117,
        414 => 623_960_392,
        415 => 627_353_395,
        416 => 630_757_136,
        417 => 634_171_626,
        418 => 637_596_874,
        419 => 641_032_889,
        420 => 644_479_682,
        421 => 647_937_261,
        422 => 651_405_637,
        423 => 654_884_819,
        424 => 658_374_817,
        425 => 661_875_640,
        426 => 665_387_298,
        427 => 668_909_801,
        428 => 672_443_157,
        429 => 675_987_377,
        430 => 679_542_470,
        431 => 683_108_445,
        432 => 686_685_312,
        433 => 690_273_081,
        434 => 693_871_761,
        435 => 697_481_362,
        436 => 701_101_892,
        437 => 704_733_362,
        438 => 708_375_780,
        439 => 712_029_156,
        440 => 715_693_501,
        441 => 719_368_822,
        442 => 723_055_129,
        443 => 726_752_432,
        444 => 730_460_740,
        445 => 734_180_063,
        446 => 737_910_409,
        447 => 741_651_788,
        448 => 745_404_210,
        449 => 749_167_683,
        450 => 752_942_217,
        451 => 756_727_821,
        452 => 760_524_505,
        453 => 764_332_277,
        454 => 768_151_147,
        455 => 771_981_125,
        456 => 775_822_218,
        457 => 779_674_438,
        458 => 783_537_792,
        459 => 787_412_289,
        460 => 791_297_940,
        461 => 795_194_753,
        462 => 799_102_738,
        463 => 803_021_903,
        464 => 806_952_258,
        465 => 810_893_811,
        466 => 814_846_572,
        467 => 818_810_550,
        468 => 822_785_754,
        469 => 826_772_194,
        470 => 830_769_877,
        471 => 834_778_813,
        472 => 838_799_012,
        473 => 842_830_482,
        474 => 846_873_232,
        475 => 850_927_271,
        476 => 854_992_608,
        477 => 859_069_253,
        478 => 863_157_213,
        479 => 867_256_499,
        480 => 871_367_119,
        481 => 875_489_082,
        482 => 879_622_397,
        483 => 883_767_073,
        484 => 887_923_118,
        485 => 892_090_542,
        486 => 896_269_353,
        487 => 900_459_561,
        488 => 904_661_174,
        489 => 908_874_202,
        490 => 913_098_652,
        491 => 917_334_534,
        492 => 921_581_856,
        493 => 925_840_628,
        494 => 930_110_858,
        495 => 934_392_556,
        496 => 938_685_728,
        497 => 942_990_386,
        498 => 947_306_537,
        499 => 951_634_190,
        500 => 955_973_353,
        501 => 960_324_036,
        502 => 964_686_248,
        503 => 969_059_996,
        504 => 973_445_290,
        505 => 977_842_139,
        506 => 982_250_550,
        507 => 986_670_534,
        508 => 991_102_097,
        509 => 995_545_250,
        510 => 1_000_000_000,
        _ => 0,
    }
}

/// The curve rises by at least `MIN_SAMPLE_GAP` from each sample to the next.
pub proof fn lemma_samples_spaced(j: u16)
    requires
        j < HALF_STEPS,
    ensures
        transfer_sample(j) + MIN_SAMPLE_GAP <= transfer_sample((j + 1) as u16),
{
    reveal(transfer_sample);
}

/// Linear light, in billionths, of the 8-bit level `level`.
pub open spec fn linear_of(level: u8) -> int {
    transfer_sample((2 * level) as u16)
}

/// Linear light, in billionths, from which an encoded value rounds to `level` (for 1..=255).
pub open spec fn level_start(level: int) -> int {
    transfer_sample((2 * level - 1) as u16)
}

/// `level` is the 8-bit level of linear light `lin`, given in billionths times
/// `SUB_STEPS`: light below zero gives 0, light above one gives 255, and light in
/// between gives the level nearest to its gamma-encoded value.
pub open spec fn is_level_of(lin: int, level: int) -> bool {
    &&& 0 <= level <= 255
    &&& level == 0 || level_start(level) * SUB_STEPS <= lin
    &&& level == 255 || lin < level_start(level + 1) * SUB_STEPS
}

/// The curve never falls: a later sample is never below an earlier one.
pub proof fn lemma_samples_rise(i: u16, j: u16)
    requires
        i <= j <= HALF_STEPS,
    ensures
        transfer_sample(i) <= transfer_sample(j),
    decreases j - i,
{
    if i < j {
        lemma_samples_spaced(i);
        lemma_samples_rise((i + 1) as u16, j);
    }
}

/// The linear light of every level lies in [0, 1].
pub proof fn lemma_linear_in_unit(level: u8)
    ensures
        0 <= linear_of(level) <= 1_000_000_000,
{
    lemma_samples_rise(0, (2 * level) as u16);
    lemma_samples_rise((2 * level) as u16, HALF_STEPS);
    assert(transfer_sample(0) == 0 && transfer_sample(HALF_STEPS) == 1_000_000_000) by {
        reveal(transfer_sample);
    }
}

/// Linear light has exactly one 8-bit level.
pub proof fn lemma_level_unique(lin: int, a: int, b: int)
    requires
        is_level_of(lin, a),
        is_level_of(lin, b),
    ensures
        a == b,
{
    if a < b {
        lemma_samples_rise((2 * a + 1) as u16, (2 * b - 1) as u16);
    } else if b < a {
        lemma_samples_rise((2 * b + 1) as u16, (2 * a - 1) as u16);
    }
}

/// The 8-bit level of linear light `lin` (billionths times `SUB_STEPS`): the
/// sRGB gamma encoding, clamped to [0, 1], scaled to 255 and rounded.
pub fn level_of(lin: i128) -> (level: u8)
    ensures
        is_level_of(lin as int, level as int),
{
    let mut level: u16 = 0;
    while level < 255 && (sample(2 * level + 1) as i128) * SUB_STEPS <= lin
        invariant
            level <= 255,
            level == 0 || level_start(level as int) * SUB_STEPS <= lin,
        decreases 255 - level,
    {
        level = level + 1;
    }
    level as u8
}

/// Linear light, in billionths, of the 8-bit level `level`: the sRGB decoding curve.
pub fn linear(level: u8) -> (r: u64)
    ensures
        r == linear_of(level),
        r <= 1_000_000_000,
{
    proof {
        lemma_linear_in_unit(level);
    }
    sample(2 * level as u16)
}

} // verus!
