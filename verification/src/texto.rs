//! Character and string helpers shared by the text exercises.

use vstd::prelude::*;

verus! {

/// Whether `c` has the Unicode `White_Space` property (what `char::is_whitespace`
/// decides): the 25 code points U+0009 to U+000D, U+0020, U+0085, U+00A0,
/// U+1680, U+2000 to U+200A, U+2028, U+2029, U+202F, U+205F and U+3000.
pub open spec fn espaco_em_branco(c: char) -> bool {
    let n = c as u32;
    ||| 0x09 <= n <= 0x0d
    ||| n == 0x20
    ||| n == 0x85
    ||| n == 0xa0
    ||| n == 0x1680
    ||| 0x2000 <= n <= 0x200a
    ||| n == 0x2028
    ||| n == 0x2029
    ||| n == 0x202f
    ||| n == 0x205f
    ||| n == 0x3000
}

/// Whether the code point `n` is alphabetic (Unicode `Alphabetic` property)
/// or numeric (general category `N`), as of Unicode 17.0: a search tree over
/// the maximal ranges of such code points, in increasing order; each leaf
/// tests the few ranges left.
pub open spec fn codigo_alfanumerico(n: u32) -> bool {
        if n < 0xd7b0 {
            if n < 0xf88 {
                if n < 0xac7 {
                    if n < 0x840 {
                        if n < 0x48a {
                            if n < 0x2ec {
                                if n < 0xb9 {
                                    if n < 0xaa {
                                        (0x30 <= n && n <= 0x39) || (0x41 <= n && n <= 0x5a) || (0x61 <= n && n <= 0x7a)
                                    } else {
                                        n == 0xaa || (0xb2 <= n && n <= 0xb3) || n == 0xb5
                                    }
                                } else {
                                    if n < 0xd8 {
                                        (0xb9 <= n && n <= 0xba) || (0xbc <= n && n <= 0xbe) || (0xc0 <= n && n <= 0xd6)
                                    } else {
                                        (0xd8 <= n && n <= 0xf6) || (0xf8 <= n && n <= 0x2c1) || (0x2c6 <= n && n <= 0x2d1) || (0x2e0 <= n && n <= 0x2e4)
                                    }
                                }
                            } else {
                                if n < 0x37f {
                                    if n < 0x363 {
                                        n == 0x2ec || n == 0x2ee || n == 0x345
                                    } else {
                                        (0x363 <= n && n <= 0x374) || (0x376 <= n && n <= 0x377) || (0x37a <= n && n <= 0x37d)
                                    }
                                } else {
                                    if n < 0x38c {
                                        n == 0x37f || n == 0x386 || (0x388 <= n && n <= 0x38a)
                                    } else {
                                        n == 0x38c || (0x38e <= n && n <= 0x3a1) || (0x3a3 <= n && n <= 0x3f5) || (0x3f7 <= n && n <= 0x481)
                                    }
                                }
                            }
                        } else {
                            if n < 0x659 {
                                if n < 0x5c1 {
                                    if n < 0x560 {
                                        (0x48a <= n && n <= 0x52f) || (0x531 <= n && n <= 0x556) || n == 0x559
                                    } else {
                                        (0x560 <= n && n <= 0x588) || (0x5b0 <= n && n <= 0x5bd) || n == 0x5bf
                                    }
                                } else {
                                    if n < 0x5d0 {
                                        (0x5c1 <= n && n <= 0x5c2) || (0x5c4 <= n && n <= 0x5c5) || n == 0x5c7
                                    } else {
                                        (0x5d0 <= n && n <= 0x5ea) || (0x5ef <= n && n <= 0x5f2) || (0x610 <= n && n <= 0x61a) || (0x620 <= n && n <= 0x657)
                                    }
                                }
                            } else {
                                if n < 0x710 {
                                    if n < 0x6e1 {
                                        (0x659 <= n && n <= 0x669) || (0x66e <= n && n <= 0x6d3) || (0x6d5 <= n && n <= 0x6dc)
                                    } else {
                                        (0x6e1 <= n && n <= 0x6e8) || (0x6ed <= n && n <= 0x6fc) || n == 0x6ff
                                    }
                                } else {
                                    if n < 0x7f4 {
                                        (0x710 <= n && n <= 0x73f) || (0x74d <= n && n <= 0x7b1) || (0x7c0 <= n && n <= 0x7ea)
                                    } else {
                                        (0x7f4 <= n && n <= 0x7f5) || n == 0x7fa || (0x800 <= n && n <= 0x817) || (0x81a <= n && n <= 0x82c)
                                    }
                                }
                            }
                        }
                    } else {
                        if n < 0x9df {
                            if n < 0x971 {
                                if n < 0x8d4 {
                                    if n < 0x889 {
                                        (0x840 <= n && n <= 0x858) || (0x860 <= n && n <= 0x86a) || (0x870 <= n && n <= 0x887)
                                    } else {
                                        (0x889 <= n && n <= 0x88f) || n == 0x897 || (0x8a0 <= n && n <= 0x8c9)
                                    }
                                } else {
                                    if n < 0x93d {
                                        (0x8d4 <= n && n <= 0x8df) || (0x8e3 <= n && n <= 0x8e9) || (0x8f0 <= n && n <= 0x93b)
                                    } else {
                                        (0x93d <= n && n <= 0x94c) || (0x94e <= n && n <= 0x950) || (0x955 <= n && n <= 0x963) || (0x966 <= n && n <= 0x96f)
                                    }
                                }
                            } else {
                                if n < 0x9b6 {
                                    if n < 0x993 {
                                        (0x971 <= n && n <= 0x983) || (0x985 <= n && n <= 0x98c) || (0x98f <= n && n <= 0x990)
                                    } else {
                                        (0x993 <= n && n <= 0x9a8) || (0x9aa <= n && n <= 0x9b0) || n == 0x9b2
                                    }
                                } else {
                                    if n < 0x9cb {
                                        (0x9b6 <= n && n <= 0x9b9) || (0x9bd <= n && n <= 0x9c4) || (0x9c7 <= n && n <= 0x9c8)
                                    } else {
                                        (0x9cb <= n && n <= 0x9cc) || n == 0x9ce || n == 0x9d7 || (0x9dc <= n && n <= 0x9dd)
                                    }
                                }
                            }
                        } else {
                            if n < 0xa47 {
                                if n < 0xa0f {
                                    if n < 0x9fc {
                                        (0x9df <= n && n <= 0x9e3) || (0x9e6 <= n && n <= 0x9f1) || (0x9f4 <= n && n <= 0x9f9)
                                    } else {
                                        n == 0x9fc || (0xa01 <= n && n <= 0xa03) || (0xa05 <= n && n <= 0xa0a)
                                    }
                                } else {
                                    if n < 0xa32 {
                                        (0xa0f <= n && n <= 0xa10) || (0xa13 <= n && n <= 0xa28) || (0xa2a <= n && n <= 0xa30)
                                    } else {
                                        (0xa32 <= n && n <= 0xa33) || (0xa35 <= n && n <= 0xa36) || (0xa38 <= n && n <= 0xa39) || (0xa3e <= n && n <= 0xa42)
                                    }
                                }
                            } else {
                                if n < 0xa85 {
                                    if n < 0xa59 {
                                        (0xa47 <= n && n <= 0xa48) || (0xa4b <= n && n <= 0xa4c) || n == 0xa51
                                    } else {
                                        (0xa59 <= n && n <= 0xa5c) || n == 0xa5e || (0xa66 <= n && n <= 0xa75) || (0xa81 <= n && n <= 0xa83)
                                    }
                                } else {
                                    if n < 0xaaa {
                                        (0xa85 <= n && n <= 0xa8d) || (0xa8f <= n && n <= 0xa91) || (0xa93 <= n && n <= 0xaa8)
                                    } else {
                                        (0xaaa <= n && n <= 0xab0) || (0xab2 <= n && n <= 0xab3) || (0xab5 <= n && n <= 0xab9) || (0xabd <= n && n <= 0xac5)
                                    }
                                }
                            }
                        }
                    }
                } else {
                    if n < 0xc92 {
                        if n < 0xb9c {
                            if n < 0xb3d {
                                if n < 0xb01 {
                                    if n < 0xae0 {
                                        (0xac7 <= n && n <= 0xac9) || (0xacb <= n && n <= 0xacc) || n == 0xad0
                                    } else {
                                        (0xae0 <= n && n <= 0xae3) || (0xae6 <= n && n <= 0xaef) || (0xaf9 <= n && n <= 0xafc)
                                    }
                                } else {
                                    if n < 0xb13 {
                                        (0xb01 <= n && n <= 0xb03) || (0xb05 <= n && n <= 0xb0c) || (0xb0f <= n && n <= 0xb10)
                                    } else {
                                        (0xb13 <= n && n <= 0xb28) || (0xb2a <= n && n <= 0xb30) || (0xb32 <= n && n <= 0xb33) || (0xb35 <= n && n <= 0xb39)
                                    }
                                }
                            } else {
                                if n < 0xb66 {
                                    if n < 0xb56 {
                                        (0xb3d <= n && n <= 0xb44) || (0xb47 <= n && n <= 0xb48) || (0xb4b <= n && n <= 0xb4c)
                                    } else {
                                        (0xb56 <= n && n <= 0xb57) || (0xb5c <= n && n <= 0xb5d) || (0xb5f <= n && n <= 0xb63)
                                    }
                                } else {
                                    if n < 0xb85 {
                                        (0xb66 <= n && n <= 0xb6f) || (0xb71 <= n && n <= 0xb77) || (0xb82 <= n && n <= 0xb83)
                                    } else {
                                        (0xb85 <= n && n <= 0xb8a) || (0xb8e <= n && n <= 0xb90) || (0xb92 <= n && n <= 0xb95) || (0xb99 <= n && n <= 0xb9a)
                                    }
                                }
                            }
                        } else {
                            if n < 0xc12 {
                                if n < 0xbc6 {
                                    if n < 0xba8 {
                                        n == 0xb9c || (0xb9e <= n && n <= 0xb9f) || (0xba3 <= n && n <= 0xba4)
                                    } else {
                                        (0xba8 <= n && n <= 0xbaa) || (0xbae <= n && n <= 0xbb9) || (0xbbe <= n && n <= 0xbc2)
                                    }
                                } else {
                                    if n < 0xbd7 {
                                        (0xbc6 <= n && n <= 0xbc8) || (0xbca <= n && n <= 0xbcc) || n == 0xbd0
                                    } else {
                                        n == 0xbd7 || (0xbe6 <= n && n <= 0xbf2) || (0xc00 <= n && n <= 0xc0c) || (0xc0e <= n && n <= 0xc10)
                                    }
                                }
                            } else {
                                if n < 0xc5c {
                                    if n < 0xc46 {
                                        (0xc12 <= n && n <= 0xc28) || (0xc2a <= n && n <= 0xc39) || (0xc3d <= n && n <= 0xc44)
                                    } else {
                                        (0xc46 <= n && n <= 0xc48) || (0xc4a <= n && n <= 0xc4c) || (0xc55 <= n && n <= 0xc56) || (0xc58 <= n && n <= 0xc5a)
                                    }
                                } else {
                                    if n < 0xc78 {
                                        (0xc5c <= n && n <= 0xc5d) || (0xc60 <= n && n <= 0xc63) || (0xc66 <= n && n <= 0xc6f)
                                    } else {
                                        (0xc78 <= n && n <= 0xc7e) || (0xc80 <= n && n <= 0xc83) || (0xc85 <= n && n <= 0xc8c) || (0xc8e <= n && n <= 0xc90)
                                    }
                                }
                            }
                        }
                    } else {
                        if n < 0xdc0 {
                            if n < 0xd12 {
                                if n < 0xcd5 {
                                    if n < 0xcbd {
                                        (0xc92 <= n && n <= 0xca8) || (0xcaa <= n && n <= 0xcb3) || (0xcb5 <= n && n <= 0xcb9)
                                    } else {
                                        (0xcbd <= n && n <= 0xcc4) || (0xcc6 <= n && n <= 0xcc8) || (0xcca <= n && n <= 0xccc)
                                    }
                                } else {
                                    if n < 0xce6 {
                                        (0xcd5 <= n && n <= 0xcd6) || (0xcdc <= n && n <= 0xcde) || (0xce0 <= n && n <= 0xce3)
                                    } else {
                                        (0xce6 <= n && n <= 0xcef) || (0xcf1 <= n && n <= 0xcf3) || (0xd00 <= n && n <= 0xd0c) || (0xd0e <= n && n <= 0xd10)
                                    }
                                }
                            } else {
                                if n < 0xd66 {
                                    if n < 0xd4a {
                                        (0xd12 <= n && n <= 0xd3a) || (0xd3d <= n && n <= 0xd44) || (0xd46 <= n && n <= 0xd48)
                                    } else {
                                        (0xd4a <= n && n <= 0xd4c) || n == 0xd4e || (0xd54 <= n && n <= 0xd63)
                                    }
                                } else {
                                    if n < 0xd85 {
                                        (0xd66 <= n && n <= 0xd78) || (0xd7a <= n && n <= 0xd7f) || (0xd81 <= n && n <= 0xd83)
                                    } else {
                                        (0xd85 <= n && n <= 0xd96) || (0xd9a <= n && n <= 0xdb1) || (0xdb3 <= n && n <= 0xdbb) || n == 0xdbd
                                    }
                                }
                            }
                        } else {
                            if n < 0xe8c {
                                if n < 0xe01 {
                                    if n < 0xdd8 {
                                        (0xdc0 <= n && n <= 0xdc6) || (0xdcf <= n && n <= 0xdd4) || n == 0xdd6
                                    } else {
                                        (0xdd8 <= n && n <= 0xddf) || (0xde6 <= n && n <= 0xdef) || (0xdf2 <= n && n <= 0xdf3)
                                    }
                                } else {
                                    if n < 0xe50 {
                                        (0xe01 <= n && n <= 0xe3a) || (0xe40 <= n && n <= 0xe46) || n == 0xe4d
                                    } else {
                                        (0xe50 <= n && n <= 0xe59) || (0xe81 <= n && n <= 0xe82) || n == 0xe84 || (0xe86 <= n && n <= 0xe8a)
                                    }
                                }
                            } else {
                                if n < 0xed0 {
                                    if n < 0xebb {
                                        (0xe8c <= n && n <= 0xea3) || n == 0xea5 || (0xea7 <= n && n <= 0xeb9)
                                    } else {
                                        (0xebb <= n && n <= 0xebd) || (0xec0 <= n && n <= 0xec4) || n == 0xec6 || n == 0xecd
                                    }
                                } else {
                                    if n < 0xf20 {
                                        (0xed0 <= n && n <= 0xed9) || (0xedc <= n && n <= 0xedf) || n == 0xf00
                                    } else {
                                        (0xf20 <= n && n <= 0xf33) || (0xf40 <= n && n <= 0xf47) || (0xf49 <= n && n <= 0xf6c) || (0xf71 <= n && n <= 0xf83)
                                    }
                                }
                            }
                        }
                    }
                }
            } else {
                if n < 0x2070 {
                    if n < 0x1920 {
                        if n < 0x1369 {
                            if n < 0x1258 {
                                if n < 0x10a0 {
                                    if n < 0x1038 {
                                        (0xf88 <= n && n <= 0xf97) || (0xf99 <= n && n <= 0xfbc) || (0x1000 <= n && n <= 0x1036)
                                    } else {
                                        n == 0x1038 || (0x103b <= n && n <= 0x1049) || (0x1050 <= n && n <= 0x109d)
                                    }
                                } else {
                                    if n < 0x10d0 {
                                        (0x10a0 <= n && n <= 0x10c5) || n == 0x10c7 || n == 0x10cd
                                    } else {
                                        (0x10d0 <= n && n <= 0x10fa) || (0x10fc <= n && n <= 0x1248) || (0x124a <= n && n <= 0x124d) || (0x1250 <= n && n <= 0x1256)
                                    }
                                }
                            } else {
                                if n < 0x12b8 {
                                    if n < 0x128a {
                                        n == 0x1258 || (0x125a <= n && n <= 0x125d) || (0x1260 <= n && n <= 0x1288)
                                    } else {
                                        (0x128a <= n && n <= 0x128d) || (0x1290 <= n && n <= 0x12b0) || (0x12b2 <= n && n <= 0x12b5)
                                    }
                                } else {
                                    if n < 0x12c8 {
                                        (0x12b8 <= n && n <= 0x12be) || n == 0x12c0 || (0x12c2 <= n && n <= 0x12c5)
                                    } else {
                                        (0x12c8 <= n && n <= 0x12d6) || (0x12d8 <= n && n <= 0x1310) || (0x1312 <= n && n <= 0x1315) || (0x1318 <= n && n <= 0x135a)
                                    }
                                }
                            }
                        } else {
                            if n < 0x176e {
                                if n < 0x1681 {
                                    if n < 0x13f8 {
                                        (0x1369 <= n && n <= 0x137c) || (0x1380 <= n && n <= 0x138f) || (0x13a0 <= n && n <= 0x13f5)
                                    } else {
                                        (0x13f8 <= n && n <= 0x13fd) || (0x1401 <= n && n <= 0x166c) || (0x166f <= n && n <= 0x167f)
                                    }
                                } else {
                                    if n < 0x1700 {
                                        (0x1681 <= n && n <= 0x169a) || (0x16a0 <= n && n <= 0x16ea) || (0x16ee <= n && n <= 0x16f8)
                                    } else {
                                        (0x1700 <= n && n <= 0x1713) || (0x171f <= n && n <= 0x1733) || (0x1740 <= n && n <= 0x1753) || (0x1760 <= n && n <= 0x176c)
                                    }
                                }
                            } else {
                                if n < 0x17e0 {
                                    if n < 0x17b6 {
                                        (0x176e <= n && n <= 0x1770) || (0x1772 <= n && n <= 0x1773) || (0x1780 <= n && n <= 0x17b3)
                                    } else {
                                        (0x17b6 <= n && n <= 0x17c8) || n == 0x17d7 || n == 0x17dc
                                    }
                                } else {
                                    if n < 0x1820 {
                                        (0x17e0 <= n && n <= 0x17e9) || (0x17f0 <= n && n <= 0x17f9) || (0x1810 <= n && n <= 0x1819)
                                    } else {
                                        (0x1820 <= n && n <= 0x1878) || (0x1880 <= n && n <= 0x18aa) || (0x18b0 <= n && n <= 0x18f5) || (0x1900 <= n && n <= 0x191e)
                                    }
                                }
                            }
                        }
                    } else {
                        if n < 0x1c90 {
                            if n < 0x1abf {
                                if n < 0x19d0 {
                                    if n < 0x1970 {
                                        (0x1920 <= n && n <= 0x192b) || (0x1930 <= n && n <= 0x1938) || (0x1946 <= n && n <= 0x196d)
                                    } else {
                                        (0x1970 <= n && n <= 0x1974) || (0x1980 <= n && n <= 0x19ab) || (0x19b0 <= n && n <= 0x19c9)
                                    }
                                } else {
                                    if n < 0x1a61 {
                                        (0x19d0 <= n && n <= 0x19da) || (0x1a00 <= n && n <= 0x1a1b) || (0x1a20 <= n && n <= 0x1a5e)
                                    } else {
                                        (0x1a61 <= n && n <= 0x1a74) || (0x1a80 <= n && n <= 0x1a89) || (0x1a90 <= n && n <= 0x1a99) || n == 0x1aa7
                                    }
                                }
                            } else {
                                if n < 0x1b80 {
                                    if n < 0x1b35 {
                                        (0x1abf <= n && n <= 0x1ac0) || (0x1acc <= n && n <= 0x1ace) || (0x1b00 <= n && n <= 0x1b33)
                                    } else {
                                        (0x1b35 <= n && n <= 0x1b43) || (0x1b45 <= n && n <= 0x1b4c) || (0x1b50 <= n && n <= 0x1b59)
                                    }
                                } else {
                                    if n < 0x1c00 {
                                        (0x1b80 <= n && n <= 0x1ba9) || (0x1bac <= n && n <= 0x1be5) || (0x1be7 <= n && n <= 0x1bf1)
                                    } else {
                                        (0x1c00 <= n && n <= 0x1c36) || (0x1c40 <= n && n <= 0x1c49) || (0x1c4d <= n && n <= 0x1c7d) || (0x1c80 <= n && n <= 0x1c8a)
                                    }
                                }
                            }
                        } else {
                            if n < 0x1f59 {
                                if n < 0x1d00 {
                                    if n < 0x1cee {
                                        (0x1c90 <= n && n <= 0x1cba) || (0x1cbd <= n && n <= 0x1cbf) || (0x1ce9 <= n && n <= 0x1cec)
                                    } else {
                                        (0x1cee <= n && n <= 0x1cf3) || (0x1cf5 <= n && n <= 0x1cf6) || n == 0x1cfa
                                    }
                                } else {
                                    if n < 0x1f18 {
                                        (0x1d00 <= n && n <= 0x1dbf) || (0x1dd3 <= n && n <= 0x1df4) || (0x1e00 <= n && n <= 0x1f15)
                                    } else {
                                        (0x1f18 <= n && n <= 0x1f1d) || (0x1f20 <= n && n <= 0x1f45) || (0x1f48 <= n && n <= 0x1f4d) || (0x1f50 <= n && n <= 0x1f57)
                                    }
                                }
                            } else {
                                if n < 0x1fc2 {
                                    if n < 0x1f5f {
                                        n == 0x1f59 || n == 0x1f5b || n == 0x1f5d
                                    } else {
                                        (0x1f5f <= n && n <= 0x1f7d) || (0x1f80 <= n && n <= 0x1fb4) || (0x1fb6 <= n && n <= 0x1fbc) || n == 0x1fbe
                                    }
                                } else {
                                    if n < 0x1fd6 {
                                        (0x1fc2 <= n && n <= 0x1fc4) || (0x1fc6 <= n && n <= 0x1fcc) || (0x1fd0 <= n && n <= 0x1fd3)
                                    } else {
                                        (0x1fd6 <= n && n <= 0x1fdb) || (0x1fe0 <= n && n <= 0x1fec) || (0x1ff2 <= n && n <= 0x1ff4) || (0x1ff6 <= n && n <= 0x1ffc)
                                    }
                                }
                            }
                        }
                    }
                } else {
                    if n < 0x31f0 {
                        if n < 0x2d27 {
                            if n < 0x212f {
                                if n < 0x210a {
                                    if n < 0x2090 {
                                        (0x2070 <= n && n <= 0x2071) || (0x2074 <= n && n <= 0x2079) || (0x207f <= n && n <= 0x2089)
                                    } else {
                                        (0x2090 <= n && n <= 0x209c) || n == 0x2102 || n == 0x2107
                                    }
                                } else {
                                    if n < 0x2124 {
                                        (0x210a <= n && n <= 0x2113) || n == 0x2115 || (0x2119 <= n && n <= 0x211d)
                                    } else {
                                        n == 0x2124 || n == 0x2126 || n == 0x2128 || (0x212a <= n && n <= 0x212d)
                                    }
                                }
                            } else {
                                if n < 0x24b6 {
                                    if n < 0x214e {
                                        (0x212f <= n && n <= 0x2139) || (0x213c <= n && n <= 0x213f) || (0x2145 <= n && n <= 0x2149)
                                    } else {
                                        n == 0x214e || (0x2150 <= n && n <= 0x2189) || (0x2460 <= n && n <= 0x249b)
                                    }
                                } else {
                                    if n < 0x2ceb {
                                        (0x24b6 <= n && n <= 0x24ff) || (0x2776 <= n && n <= 0x2793) || (0x2c00 <= n && n <= 0x2ce4)
                                    } else {
                                        (0x2ceb <= n && n <= 0x2cee) || (0x2cf2 <= n && n <= 0x2cf3) || n == 0x2cfd || (0x2d00 <= n && n <= 0x2d25)
                                    }
                                }
                            }
                        } else {
                            if n < 0x2de0 {
                                if n < 0x2da8 {
                                    if n < 0x2d6f {
                                        n == 0x2d27 || n == 0x2d2d || (0x2d30 <= n && n <= 0x2d67)
                                    } else {
                                        n == 0x2d6f || (0x2d80 <= n && n <= 0x2d96) || (0x2da0 <= n && n <= 0x2da6)
                                    }
                                } else {
                                    if n < 0x2dc0 {
                                        (0x2da8 <= n && n <= 0x2dae) || (0x2db0 <= n && n <= 0x2db6) || (0x2db8 <= n && n <= 0x2dbe)
                                    } else {
                                        (0x2dc0 <= n && n <= 0x2dc6) || (0x2dc8 <= n && n <= 0x2dce) || (0x2dd0 <= n && n <= 0x2dd6) || (0x2dd8 <= n && n <= 0x2dde)
                                    }
                                }
                            } else {
                                if n < 0x309d {
                                    if n < 0x3021 {
                                        (0x2de0 <= n && n <= 0x2dff) || n == 0x2e2f || (0x3005 <= n && n <= 0x3007)
                                    } else {
                                        (0x3021 <= n && n <= 0x3029) || (0x3031 <= n && n <= 0x3035) || (0x3038 <= n && n <= 0x303c) || (0x3041 <= n && n <= 0x3096)
                                    }
                                } else {
                                    if n < 0x3105 {
                                        (0x309d <= n && n <= 0x309f) || (0x30a1 <= n && n <= 0x30fa) || (0x30fc <= n && n <= 0x30ff)
                                    } else {
                                        (0x3105 <= n && n <= 0x312f) || (0x3131 <= n && n <= 0x318e) || (0x3192 <= n && n <= 0x3195) || (0x31a0 <= n && n <= 0x31bf)
                                    }
                                }
                            }
                        }
                    } else {
                        if n < 0xa8fd {
                            if n < 0xa67f {
                                if n < 0x3400 {
                                    if n < 0x3251 {
                                        (0x31f0 <= n && n <= 0x31ff) || (0x3220 <= n && n <= 0x3229) || (0x3248 <= n && n <= 0x324f)
                                    } else {
                                        (0x3251 <= n && n <= 0x325f) || (0x3280 <= n && n <= 0x3289) || (0x32b1 <= n && n <= 0x32bf)
                                    }
                                } else {
                                    if n < 0xa500 {
                                        (0x3400 <= n && n <= 0x4dbf) || (0x4e00 <= n && n <= 0xa48c) || (0xa4d0 <= n && n <= 0xa4fd)
                                    } else {
                                        (0xa500 <= n && n <= 0xa60c) || (0xa610 <= n && n <= 0xa62b) || (0xa640 <= n && n <= 0xa66e) || (0xa674 <= n && n <= 0xa67b)
                                    }
                                }
                            } else {
                                if n < 0xa830 {
                                    if n < 0xa78b {
                                        (0xa67f <= n && n <= 0xa6ef) || (0xa717 <= n && n <= 0xa71f) || (0xa722 <= n && n <= 0xa788)
                                    } else {
                                        (0xa78b <= n && n <= 0xa7dc) || (0xa7f1 <= n && n <= 0xa805) || (0xa807 <= n && n <= 0xa827)
                                    }
                                } else {
                                    if n < 0xa8c5 {
                                        (0xa830 <= n && n <= 0xa835) || (0xa840 <= n && n <= 0xa873) || (0xa880 <= n && n <= 0xa8c3)
                                    } else {
                                        n == 0xa8c5 || (0xa8d0 <= n && n <= 0xa8d9) || (0xa8f2 <= n && n <= 0xa8f7) || n == 0xa8fb
                                    }
                                }
                            }
                        } else {
                            if n < 0xaac2 {
                                if n < 0xa9e0 {
                                    if n < 0xa980 {
                                        (0xa8fd <= n && n <= 0xa92a) || (0xa930 <= n && n <= 0xa952) || (0xa960 <= n && n <= 0xa97c)
                                    } else {
                                        (0xa980 <= n && n <= 0xa9b2) || (0xa9b4 <= n && n <= 0xa9bf) || (0xa9cf <= n && n <= 0xa9d9)
                                    }
                                } else {
                                    if n < 0xaa50 {
                                        (0xa9e0 <= n && n <= 0xa9fe) || (0xaa00 <= n && n <= 0xaa36) || (0xaa40 <= n && n <= 0xaa4d)
                                    } else {
                                        (0xaa50 <= n && n <= 0xaa59) || (0xaa60 <= n && n <= 0xaa76) || (0xaa7a <= n && n <= 0xaabe) || n == 0xaac0
                                    }
                                }
                            } else {
                                if n < 0xab20 {
                                    if n < 0xaaf2 {
                                        n == 0xaac2 || (0xaadb <= n && n <= 0xaadd) || (0xaae0 <= n && n <= 0xaaef)
                                    } else {
                                        (0xaaf2 <= n && n <= 0xaaf5) || (0xab01 <= n && n <= 0xab06) || (0xab09 <= n && n <= 0xab0e) || (0xab11 <= n && n <= 0xab16)
                                    }
                                } else {
                                    if n < 0xab5c {
                                        (0xab20 <= n && n <= 0xab26) || (0xab28 <= n && n <= 0xab2e) || (0xab30 <= n && n <= 0xab5a)
                                    } else {
                                        (0xab5c <= n && n <= 0xab69) || (0xab70 <= n && n <= 0xabea) || (0xabf0 <= n && n <= 0xabf9) || (0xac00 <= n && n <= 0xd7a3)
                                    }
                                }
                            }
                        }
                    }
                }
            }
        } else {
            if n < 0x119e3 {
                if n < 0x10d40 {
                    if n < 0x10530 {
                        if n < 0xffda {
                            if n < 0xfbd3 {
                                if n < 0xfb1d {
                                    if n < 0xfa70 {
                                        (0xd7b0 <= n && n <= 0xd7c6) || (0xd7cb <= n && n <= 0xd7fb) || (0xf900 <= n && n <= 0xfa6d)
                                    } else {
                                        (0xfa70 <= n && n <= 0xfad9) || (0xfb00 <= n && n <= 0xfb06) || (0xfb13 <= n && n <= 0xfb17)
                                    }
                                } else {
                                    if n < 0xfb3e {
                                        (0xfb1d <= n && n <= 0xfb28) || (0xfb2a <= n && n <= 0xfb36) || (0xfb38 <= n && n <= 0xfb3c)
                                    } else {
                                        n == 0xfb3e || (0xfb40 <= n && n <= 0xfb41) || (0xfb43 <= n && n <= 0xfb44) || (0xfb46 <= n && n <= 0xfbb1)
                                    }
                                }
                            } else {
                                if n < 0xff10 {
                                    if n < 0xfdf0 {
                                        (0xfbd3 <= n && n <= 0xfd3d) || (0xfd50 <= n && n <= 0xfd8f) || (0xfd92 <= n && n <= 0xfdc7)
                                    } else {
                                        (0xfdf0 <= n && n <= 0xfdfb) || (0xfe70 <= n && n <= 0xfe74) || (0xfe76 <= n && n <= 0xfefc)
                                    }
                                } else {
                                    if n < 0xff66 {
                                        (0xff10 <= n && n <= 0xff19) || (0xff21 <= n && n <= 0xff3a) || (0xff41 <= n && n <= 0xff5a)
                                    } else {
                                        (0xff66 <= n && n <= 0xffbe) || (0xffc2 <= n && n <= 0xffc7) || (0xffca <= n && n <= 0xffcf) || (0xffd2 <= n && n <= 0xffd7)
                                    }
                                }
                            }
                        } else {
                            if n < 0x102e1 {
                                if n < 0x10050 {
                                    if n < 0x10028 {
                                        (0xffda <= n && n <= 0xffdc) || (0x10000 <= n && n <= 0x1000b) || (0x1000d <= n && n <= 0x10026)
                                    } else {
                                        (0x10028 <= n && n <= 0x1003a) || (0x1003c <= n && n <= 0x1003d) || (0x1003f <= n && n <= 0x1004d)
                                    }
                                } else {
                                    if n < 0x10140 {
                                        (0x10050 <= n && n <= 0x1005d) || (0x10080 <= n && n <= 0x100fa) || (0x10107 <= n && n <= 0x10133)
                                    } else {
                                        (0x10140 <= n && n <= 0x10178) || (0x1018a <= n && n <= 0x1018b) || (0x10280 <= n && n <= 0x1029c) || (0x102a0 <= n && n <= 0x102d0)
                                    }
                                }
                            } else {
                                if n < 0x103c8 {
                                    if n < 0x10350 {
                                        (0x102e1 <= n && n <= 0x102fb) || (0x10300 <= n && n <= 0x10323) || (0x1032d <= n && n <= 0x1034a)
                                    } else {
                                        (0x10350 <= n && n <= 0x1037a) || (0x10380 <= n && n <= 0x1039d) || (0x103a0 <= n && n <= 0x103c3)
                                    }
                                } else {
                                    if n < 0x104a0 {
                                        (0x103c8 <= n && n <= 0x103cf) || (0x103d1 <= n && n <= 0x103d5) || (0x10400 <= n && n <= 0x1049d)
                                    } else {
                                        (0x104a0 <= n && n <= 0x104a9) || (0x104b0 <= n && n <= 0x104d3) || (0x104d8 <= n && n <= 0x104fb) || (0x10500 <= n && n <= 0x10527)
                                    }
                                }
                            }
                        }
                    } else {
                        if n < 0x108f4 {
                            if n < 0x10780 {
                                if n < 0x105a3 {
                                    if n < 0x1058c {
                                        (0x10530 <= n && n <= 0x10563) || (0x10570 <= n && n <= 0x1057a) || (0x1057c <= n && n <= 0x1058a)
                                    } else {
                                        (0x1058c <= n && n <= 0x10592) || (0x10594 <= n && n <= 0x10595) || (0x10597 <= n && n <= 0x105a1)
                                    }
                                } else {
                                    if n < 0x105c0 {
                                        (0x105a3 <= n && n <= 0x105b1) || (0x105b3 <= n && n <= 0x105b9) || (0x105bb <= n && n <= 0x105bc)
                                    } else {
                                        (0x105c0 <= n && n <= 0x105f3) || (0x10600 <= n && n <= 0x10736) || (0x10740 <= n && n <= 0x10755) || (0x10760 <= n && n <= 0x10767)
                                    }
                                }
                            } else {
                                if n < 0x10837 {
                                    if n < 0x10800 {
                                        (0x10780 <= n && n <= 0x10785) || (0x10787 <= n && n <= 0x107b0) || (0x107b2 <= n && n <= 0x107ba)
                                    } else {
                                        (0x10800 <= n && n <= 0x10805) || n == 0x10808 || (0x1080a <= n && n <= 0x10835)
                                    }
                                } else {
                                    if n < 0x10858 {
                                        (0x10837 <= n && n <= 0x10838) || n == 0x1083c || (0x1083f <= n && n <= 0x10855)
                                    } else {
                                        (0x10858 <= n && n <= 0x10876) || (0x10879 <= n && n <= 0x1089e) || (0x108a7 <= n && n <= 0x108af) || (0x108e0 <= n && n <= 0x108f2)
                                    }
                                }
                            }
                        } else {
                            if n < 0x10a80 {
                                if n < 0x109d2 {
                                    if n < 0x10940 {
                                        (0x108f4 <= n && n <= 0x108f5) || (0x108fb <= n && n <= 0x1091b) || (0x10920 <= n && n <= 0x10939)
                                    } else {
                                        (0x10940 <= n && n <= 0x10959) || (0x10980 <= n && n <= 0x109b7) || (0x109bc <= n && n <= 0x109cf)
                                    }
                                } else {
                                    if n < 0x10a15 {
                                        (0x109d2 <= n && n <= 0x10a03) || (0x10a05 <= n && n <= 0x10a06) || (0x10a0c <= n && n <= 0x10a13)
                                    } else {
                                        (0x10a15 <= n && n <= 0x10a17) || (0x10a19 <= n && n <= 0x10a35) || (0x10a40 <= n && n <= 0x10a48) || (0x10a60 <= n && n <= 0x10a7e)
                                    }
                                }
                            } else {
                                if n < 0x10b78 {
                                    if n < 0x10aeb {
                                        (0x10a80 <= n && n <= 0x10a9f) || (0x10ac0 <= n && n <= 0x10ac7) || (0x10ac9 <= n && n <= 0x10ae4)
                                    } else {
                                        (0x10aeb <= n && n <= 0x10aef) || (0x10b00 <= n && n <= 0x10b35) || (0x10b40 <= n && n <= 0x10b55) || (0x10b58 <= n && n <= 0x10b72)
                                    }
                                } else {
                                    if n < 0x10c80 {
                                        (0x10b78 <= n && n <= 0x10b91) || (0x10ba9 <= n && n <= 0x10baf) || (0x10c00 <= n && n <= 0x10c48)
                                    } else {
                                        (0x10c80 <= n && n <= 0x10cb2) || (0x10cc0 <= n && n <= 0x10cf2) || (0x10cfa <= n && n <= 0x10d27) || (0x10d30 <= n && n <= 0x10d39)
                                    }
                                }
                            }
                        }
                    }
                } else {
                    if n < 0x11350 {
                        if n < 0x11176 {
                            if n < 0x10fb0 {
                                if n < 0x10eb0 {
                                    if n < 0x10e60 {
                                        (0x10d40 <= n && n <= 0x10d65) || n == 0x10d69 || (0x10d6f <= n && n <= 0x10d85)
                                    } else {
                                        (0x10e60 <= n && n <= 0x10e7e) || (0x10e80 <= n && n <= 0x10ea9) || (0x10eab <= n && n <= 0x10eac)
                                    }
                                } else {
                                    if n < 0x10f00 {
                                        (0x10eb0 <= n && n <= 0x10eb1) || (0x10ec2 <= n && n <= 0x10ec7) || (0x10efa <= n && n <= 0x10efc)
                                    } else {
                                        (0x10f00 <= n && n <= 0x10f27) || (0x10f30 <= n && n <= 0x10f45) || (0x10f51 <= n && n <= 0x10f54) || (0x10f70 <= n && n <= 0x10f81)
                                    }
                                }
                            } else {
                                if n < 0x110c2 {
                                    if n < 0x11052 {
                                        (0x10fb0 <= n && n <= 0x10fcb) || (0x10fe0 <= n && n <= 0x10ff6) || (0x11000 <= n && n <= 0x11045)
                                    } else {
                                        (0x11052 <= n && n <= 0x1106f) || (0x11071 <= n && n <= 0x11075) || (0x11080 <= n && n <= 0x110b8)
                                    }
                                } else {
                                    if n < 0x11100 {
                                        n == 0x110c2 || (0x110d0 <= n && n <= 0x110e8) || (0x110f0 <= n && n <= 0x110f9)
                                    } else {
                                        (0x11100 <= n && n <= 0x11132) || (0x11136 <= n && n <= 0x1113f) || (0x11144 <= n && n <= 0x11147) || (0x11150 <= n && n <= 0x11172)
                                    }
                                }
                            }
                        } else {
                            if n < 0x1128f {
                                if n < 0x11200 {
                                    if n < 0x111ce {
                                        n == 0x11176 || (0x11180 <= n && n <= 0x111bf) || (0x111c1 <= n && n <= 0x111c4)
                                    } else {
                                        (0x111ce <= n && n <= 0x111da) || n == 0x111dc || (0x111e1 <= n && n <= 0x111f4)
                                    }
                                } else {
                                    if n < 0x1123e {
                                        (0x11200 <= n && n <= 0x11211) || (0x11213 <= n && n <= 0x11234) || n == 0x11237
                                    } else {
                                        (0x1123e <= n && n <= 0x11241) || (0x11280 <= n && n <= 0x11286) || n == 0x11288 || (0x1128a <= n && n <= 0x1128d)
                                    }
                                }
                            } else {
                                if n < 0x11313 {
                                    if n < 0x112f0 {
                                        (0x1128f <= n && n <= 0x1129d) || (0x1129f <= n && n <= 0x112a8) || (0x112b0 <= n && n <= 0x112e8)
                                    } else {
                                        (0x112f0 <= n && n <= 0x112f9) || (0x11300 <= n && n <= 0x11303) || (0x11305 <= n && n <= 0x1130c) || (0x1130f <= n && n <= 0x11310)
                                    }
                                } else {
                                    if n < 0x11335 {
                                        (0x11313 <= n && n <= 0x11328) || (0x1132a <= n && n <= 0x11330) || (0x11332 <= n && n <= 0x11333)
                                    } else {
                                        (0x11335 <= n && n <= 0x11339) || (0x1133d <= n && n <= 0x11344) || (0x11347 <= n && n <= 0x11348) || (0x1134b <= n && n <= 0x1134c)
                                    }
                                }
                            }
                        }
                    } else {
                        if n < 0x11600 {
                            if n < 0x113d3 {
                                if n < 0x11390 {
                                    if n < 0x11380 {
                                        n == 0x11350 || n == 0x11357 || (0x1135d <= n && n <= 0x11363)
                                    } else {
                                        (0x11380 <= n && n <= 0x11389) || n == 0x1138b || n == 0x1138e
                                    }
                                } else {
                                    if n < 0x113c5 {
                                        (0x11390 <= n && n <= 0x113b5) || (0x113b7 <= n && n <= 0x113c0) || n == 0x113c2
                                    } else {
                                        n == 0x113c5 || (0x113c7 <= n && n <= 0x113ca) || (0x113cc <= n && n <= 0x113cd) || n == 0x113d1
                                    }
                                }
                            } else {
                                if n < 0x11480 {
                                    if n < 0x11447 {
                                        n == 0x113d3 || (0x11400 <= n && n <= 0x11441) || (0x11443 <= n && n <= 0x11445)
                                    } else {
                                        (0x11447 <= n && n <= 0x1144a) || (0x11450 <= n && n <= 0x11459) || (0x1145f <= n && n <= 0x11461)
                                    }
                                } else {
                                    if n < 0x114d0 {
                                        (0x11480 <= n && n <= 0x114c1) || (0x114c4 <= n && n <= 0x114c5) || n == 0x114c7
                                    } else {
                                        (0x114d0 <= n && n <= 0x114d9) || (0x11580 <= n && n <= 0x115b5) || (0x115b8 <= n && n <= 0x115be) || (0x115d8 <= n && n <= 0x115dd)
                                    }
                                }
                            }
                        } else {
                            if n < 0x118a0 {
                                if n < 0x116c0 {
                                    if n < 0x11650 {
                                        (0x11600 <= n && n <= 0x1163e) || n == 0x11640 || n == 0x11644
                                    } else {
                                        (0x11650 <= n && n <= 0x11659) || (0x11680 <= n && n <= 0x116b5) || n == 0x116b8
                                    }
                                } else {
                                    if n < 0x1171d {
                                        (0x116c0 <= n && n <= 0x116c9) || (0x116d0 <= n && n <= 0x116e3) || (0x11700 <= n && n <= 0x1171a)
                                    } else {
                                        (0x1171d <= n && n <= 0x1172a) || (0x11730 <= n && n <= 0x1173b) || (0x11740 <= n && n <= 0x11746) || (0x11800 <= n && n <= 0x11838)
                                    }
                                }
                            } else {
                                if n < 0x1193b {
                                    if n < 0x1190c {
                                        (0x118a0 <= n && n <= 0x118f2) || (0x118ff <= n && n <= 0x11906) || n == 0x11909
                                    } else {
                                        (0x1190c <= n && n <= 0x11913) || (0x11915 <= n && n <= 0x11916) || (0x11918 <= n && n <= 0x11935) || (0x11937 <= n && n <= 0x11938)
                                    }
                                } else {
                                    if n < 0x119a0 {
                                        (0x1193b <= n && n <= 0x1193c) || (0x1193f <= n && n <= 0x11942) || (0x11950 <= n && n <= 0x11959)
                                    } else {
                                        (0x119a0 <= n && n <= 0x119a7) || (0x119aa <= n && n <= 0x119d7) || (0x119da <= n && n <= 0x119df) || n == 0x119e1
                                    }
                                }
                            }
                        }
                    }
                }
            } else {
                if n < 0x1d4c5 {
                    if n < 0x16800 {
                        if n < 0x11d60 {
                            if n < 0x11c50 {
                                if n < 0x11b60 {
                                    if n < 0x11a50 {
                                        (0x119e3 <= n && n <= 0x119e4) || (0x11a00 <= n && n <= 0x11a32) || (0x11a35 <= n && n <= 0x11a3e)
                                    } else {
                                        (0x11a50 <= n && n <= 0x11a97) || n == 0x11a9d || (0x11ab0 <= n && n <= 0x11af8)
                                    }
                                } else {
                                    if n < 0x11c00 {
                                        (0x11b60 <= n && n <= 0x11b67) || (0x11bc0 <= n && n <= 0x11be0) || (0x11bf0 <= n && n <= 0x11bf9)
                                    } else {
                                        (0x11c00 <= n && n <= 0x11c08) || (0x11c0a <= n && n <= 0x11c36) || (0x11c38 <= n && n <= 0x11c3e) || n == 0x11c40
                                    }
                                }
                            } else {
                                if n < 0x11d0b {
                                    if n < 0x11ca9 {
                                        (0x11c50 <= n && n <= 0x11c6c) || (0x11c72 <= n && n <= 0x11c8f) || (0x11c92 <= n && n <= 0x11ca7)
                                    } else {
                                        (0x11ca9 <= n && n <= 0x11cb6) || (0x11d00 <= n && n <= 0x11d06) || (0x11d08 <= n && n <= 0x11d09)
                                    }
                                } else {
                                    if n < 0x11d3f {
                                        (0x11d0b <= n && n <= 0x11d36) || n == 0x11d3a || (0x11d3c <= n && n <= 0x11d3d)
                                    } else {
                                        (0x11d3f <= n && n <= 0x11d41) || n == 0x11d43 || (0x11d46 <= n && n <= 0x11d47) || (0x11d50 <= n && n <= 0x11d59)
                                    }
                                }
                            }
                        } else {
                            if n < 0x11f50 {
                                if n < 0x11da0 {
                                    if n < 0x11d90 {
                                        (0x11d60 <= n && n <= 0x11d65) || (0x11d67 <= n && n <= 0x11d68) || (0x11d6a <= n && n <= 0x11d8e)
                                    } else {
                                        (0x11d90 <= n && n <= 0x11d91) || (0x11d93 <= n && n <= 0x11d96) || n == 0x11d98
                                    }
                                } else {
                                    if n < 0x11ee0 {
                                        (0x11da0 <= n && n <= 0x11da9) || (0x11db0 <= n && n <= 0x11ddb) || (0x11de0 <= n && n <= 0x11de9)
                                    } else {
                                        (0x11ee0 <= n && n <= 0x11ef6) || (0x11f00 <= n && n <= 0x11f10) || (0x11f12 <= n && n <= 0x11f3a) || (0x11f3e <= n && n <= 0x11f40)
                                    }
                                }
                            } else {
                                if n < 0x12f90 {
                                    if n < 0x12000 {
                                        (0x11f50 <= n && n <= 0x11f59) || n == 0x11fb0 || (0x11fc0 <= n && n <= 0x11fd4)
                                    } else {
                                        (0x12000 <= n && n <= 0x12399) || (0x12400 <= n && n <= 0x1246e) || (0x12480 <= n && n <= 0x12543)
                                    }
                                } else {
                                    if n < 0x13460 {
                                        (0x12f90 <= n && n <= 0x12ff0) || (0x13000 <= n && n <= 0x1342f) || (0x13441 <= n && n <= 0x13446)
                                    } else {
                                        (0x13460 <= n && n <= 0x143fa) || (0x14400 <= n && n <= 0x14646) || (0x16100 <= n && n <= 0x1612e) || (0x16130 <= n && n <= 0x16139)
                                    }
                                }
                            }
                        }
                    } else {
                        if n < 0x1aff0 {
                            if n < 0x16d70 {
                                if n < 0x16b00 {
                                    if n < 0x16a70 {
                                        (0x16800 <= n && n <= 0x16a38) || (0x16a40 <= n && n <= 0x16a5e) || (0x16a60 <= n && n <= 0x16a69)
                                    } else {
                                        (0x16a70 <= n && n <= 0x16abe) || (0x16ac0 <= n && n <= 0x16ac9) || (0x16ad0 <= n && n <= 0x16aed)
                                    }
                                } else {
                                    if n < 0x16b5b {
                                        (0x16b00 <= n && n <= 0x16b2f) || (0x16b40 <= n && n <= 0x16b43) || (0x16b50 <= n && n <= 0x16b59)
                                    } else {
                                        (0x16b5b <= n && n <= 0x16b61) || (0x16b63 <= n && n <= 0x16b77) || (0x16b7d <= n && n <= 0x16b8f) || (0x16d40 <= n && n <= 0x16d6c)
                                    }
                                }
                            } else {
                                if n < 0x16f8f {
                                    if n < 0x16ebb {
                                        (0x16d70 <= n && n <= 0x16d79) || (0x16e40 <= n && n <= 0x16e96) || (0x16ea0 <= n && n <= 0x16eb8)
                                    } else {
                                        (0x16ebb <= n && n <= 0x16ed3) || (0x16f00 <= n && n <= 0x16f4a) || (0x16f4f <= n && n <= 0x16f87)
                                    }
                                } else {
                                    if n < 0x16ff0 {
                                        (0x16f8f <= n && n <= 0x16f9f) || (0x16fe0 <= n && n <= 0x16fe1) || n == 0x16fe3
                                    } else {
                                        (0x16ff0 <= n && n <= 0x16ff6) || (0x17000 <= n && n <= 0x18cd5) || (0x18cff <= n && n <= 0x18d1e) || (0x18d80 <= n && n <= 0x18df2)
                                    }
                                }
                            }
                        } else {
                            if n < 0x1bc9e {
                                if n < 0x1b155 {
                                    if n < 0x1b000 {
                                        (0x1aff0 <= n && n <= 0x1aff3) || (0x1aff5 <= n && n <= 0x1affb) || (0x1affd <= n && n <= 0x1affe)
                                    } else {
                                        (0x1b000 <= n && n <= 0x1b122) || n == 0x1b132 || (0x1b150 <= n && n <= 0x1b152)
                                    }
                                } else {
                                    if n < 0x1bc00 {
                                        n == 0x1b155 || (0x1b164 <= n && n <= 0x1b167) || (0x1b170 <= n && n <= 0x1b2fb)
                                    } else {
                                        (0x1bc00 <= n && n <= 0x1bc6a) || (0x1bc70 <= n && n <= 0x1bc7c) || (0x1bc80 <= n && n <= 0x1bc88) || (0x1bc90 <= n && n <= 0x1bc99)
                                    }
                                }
                            } else {
                                if n < 0x1d49e {
                                    if n < 0x1d2e0 {
                                        n == 0x1bc9e || (0x1ccf0 <= n && n <= 0x1ccf9) || (0x1d2c0 <= n && n <= 0x1d2d3)
                                    } else {
                                        (0x1d2e0 <= n && n <= 0x1d2f3) || (0x1d360 <= n && n <= 0x1d378) || (0x1d400 <= n && n <= 0x1d454) || (0x1d456 <= n && n <= 0x1d49c)
                                    }
                                } else {
                                    if n < 0x1d4a9 {
                                        (0x1d49e <= n && n <= 0x1d49f) || n == 0x1d4a2 || (0x1d4a5 <= n && n <= 0x1d4a6)
                                    } else {
                                        (0x1d4a9 <= n && n <= 0x1d4ac) || (0x1d4ae <= n && n <= 0x1d4b9) || n == 0x1d4bb || (0x1d4bd <= n && n <= 0x1d4c3)
                                    }
                                }
                            }
                        }
                    }
                } else {
                    if n < 0x1e94b {
                        if n < 0x1e01b {
                            if n < 0x1d6fc {
                                if n < 0x1d540 {
                                    if n < 0x1d516 {
                                        (0x1d4c5 <= n && n <= 0x1d505) || (0x1d507 <= n && n <= 0x1d50a) || (0x1d50d <= n && n <= 0x1d514)
                                    } else {
                                        (0x1d516 <= n && n <= 0x1d51c) || (0x1d51e <= n && n <= 0x1d539) || (0x1d53b <= n && n <= 0x1d53e)
                                    }
                                } else {
                                    if n < 0x1d552 {
                                        (0x1d540 <= n && n <= 0x1d544) || n == 0x1d546 || (0x1d54a <= n && n <= 0x1d550)
                                    } else {
                                        (0x1d552 <= n && n <= 0x1d6a5) || (0x1d6a8 <= n && n <= 0x1d6c0) || (0x1d6c2 <= n && n <= 0x1d6da) || (0x1d6dc <= n && n <= 0x1d6fa)
                                    }
                                }
                            } else {
                                if n < 0x1d7aa {
                                    if n < 0x1d750 {
                                        (0x1d6fc <= n && n <= 0x1d714) || (0x1d716 <= n && n <= 0x1d734) || (0x1d736 <= n && n <= 0x1d74e)
                                    } else {
                                        (0x1d750 <= n && n <= 0x1d76e) || (0x1d770 <= n && n <= 0x1d788) || (0x1d78a <= n && n <= 0x1d7a8)
                                    }
                                } else {
                                    if n < 0x1df00 {
                                        (0x1d7aa <= n && n <= 0x1d7c2) || (0x1d7c4 <= n && n <= 0x1d7cb) || (0x1d7ce <= n && n <= 0x1d7ff)
                                    } else {
                                        (0x1df00 <= n && n <= 0x1df1e) || (0x1df25 <= n && n <= 0x1df2a) || (0x1e000 <= n && n <= 0x1e006) || (0x1e008 <= n && n <= 0x1e018)
                                    }
                                }
                            }
                        } else {
                            if n < 0x1e4f0 {
                                if n < 0x1e137 {
                                    if n < 0x1e030 {
                                        (0x1e01b <= n && n <= 0x1e021) || (0x1e023 <= n && n <= 0x1e024) || (0x1e026 <= n && n <= 0x1e02a)
                                    } else {
                                        (0x1e030 <= n && n <= 0x1e06d) || n == 0x1e08f || (0x1e100 <= n && n <= 0x1e12c)
                                    }
                                } else {
                                    if n < 0x1e290 {
                                        (0x1e137 <= n && n <= 0x1e13d) || (0x1e140 <= n && n <= 0x1e149) || n == 0x1e14e
                                    } else {
                                        (0x1e290 <= n && n <= 0x1e2ad) || (0x1e2c0 <= n && n <= 0x1e2eb) || (0x1e2f0 <= n && n <= 0x1e2f9) || (0x1e4d0 <= n && n <= 0x1e4eb)
                                    }
                                }
                            } else {
                                if n < 0x1e7e8 {
                                    if n < 0x1e6c0 {
                                        (0x1e4f0 <= n && n <= 0x1e4f9) || (0x1e5d0 <= n && n <= 0x1e5ed) || (0x1e5f0 <= n && n <= 0x1e5fa)
                                    } else {
                                        (0x1e6c0 <= n && n <= 0x1e6de) || (0x1e6e0 <= n && n <= 0x1e6f5) || (0x1e6fe <= n && n <= 0x1e6ff) || (0x1e7e0 <= n && n <= 0x1e7e6)
                                    }
                                } else {
                                    if n < 0x1e800 {
                                        (0x1e7e8 <= n && n <= 0x1e7eb) || (0x1e7ed <= n && n <= 0x1e7ee) || (0x1e7f0 <= n && n <= 0x1e7fe)
                                    } else {
                                        (0x1e800 <= n && n <= 0x1e8c4) || (0x1e8c7 <= n && n <= 0x1e8cf) || (0x1e900 <= n && n <= 0x1e943) || n == 0x1e947
                                    }
                                }
                            }
                        }
                    } else {
                        if n < 0x1ee5d {
                            if n < 0x1ee34 {
                                if n < 0x1ed2f {
                                    if n < 0x1ecad {
                                        n == 0x1e94b || (0x1e950 <= n && n <= 0x1e959) || (0x1ec71 <= n && n <= 0x1ecab)
                                    } else {
                                        (0x1ecad <= n && n <= 0x1ecaf) || (0x1ecb1 <= n && n <= 0x1ecb4) || (0x1ed01 <= n && n <= 0x1ed2d)
                                    }
                                } else {
                                    if n < 0x1ee21 {
                                        (0x1ed2f <= n && n <= 0x1ed3d) || (0x1ee00 <= n && n <= 0x1ee03) || (0x1ee05 <= n && n <= 0x1ee1f)
                                    } else {
                                        (0x1ee21 <= n && n <= 0x1ee22) || n == 0x1ee24 || n == 0x1ee27 || (0x1ee29 <= n && n <= 0x1ee32)
                                    }
                                }
                            } else {
                                if n < 0x1ee4b {
                                    if n < 0x1ee42 {
                                        (0x1ee34 <= n && n <= 0x1ee37) || n == 0x1ee39 || n == 0x1ee3b
                                    } else {
                                        n == 0x1ee42 || n == 0x1ee47 || n == 0x1ee49
                                    }
                                } else {
                                    if n < 0x1ee54 {
                                        n == 0x1ee4b || (0x1ee4d <= n && n <= 0x1ee4f) || (0x1ee51 <= n && n <= 0x1ee52)
                                    } else {
                                        n == 0x1ee54 || n == 0x1ee57 || n == 0x1ee59 || n == 0x1ee5b
                                    }
                                }
                            }
                        } else {
                            if n < 0x1eeab {
                                if n < 0x1ee74 {
                                    if n < 0x1ee64 {
                                        n == 0x1ee5d || n == 0x1ee5f || (0x1ee61 <= n && n <= 0x1ee62)
                                    } else {
                                        n == 0x1ee64 || (0x1ee67 <= n && n <= 0x1ee6a) || (0x1ee6c <= n && n <= 0x1ee72)
                                    }
                                } else {
                                    if n < 0x1ee80 {
                                        (0x1ee74 <= n && n <= 0x1ee77) || (0x1ee79 <= n && n <= 0x1ee7c) || n == 0x1ee7e
                                    } else {
                                        (0x1ee80 <= n && n <= 0x1ee89) || (0x1ee8b <= n && n <= 0x1ee9b) || (0x1eea1 <= n && n <= 0x1eea3) || (0x1eea5 <= n && n <= 0x1eea9)
                                    }
                                }
                            } else {
                                if n < 0x2a700 {
                                    if n < 0x1f150 {
                                        (0x1eeab <= n && n <= 0x1eebb) || (0x1f100 <= n && n <= 0x1f10c) || (0x1f130 <= n && n <= 0x1f149)
                                    } else {
                                        (0x1f150 <= n && n <= 0x1f169) || (0x1f170 <= n && n <= 0x1f189) || (0x1fbf0 <= n && n <= 0x1fbf9) || (0x20000 <= n && n <= 0x2a6df)
                                    }
                                } else {
                                    if n < 0x2ebf0 {
                                        (0x2a700 <= n && n <= 0x2b81d) || (0x2b820 <= n && n <= 0x2cead) || (0x2ceb0 <= n && n <= 0x2ebe0)
                                    } else {
                                        (0x2ebf0 <= n && n <= 0x2ee5d) || (0x2f800 <= n && n <= 0x2fa1d) || (0x30000 <= n && n <= 0x3134a) || (0x31350 <= n && n <= 0x33479)
                                    }
                                }
                            }
                        }
                    }
                }
            }
        }
}

/// Whether `c` is alphabetic or numeric (what `char::is_alphanumeric` decides).
pub open spec fn alfanumerico(c: char) -> bool {
    codigo_alfanumerico(c as u32)
}

/// The lowercase form of a string, as `str::to_lowercase` computes it.
pub uninterp spec fn minusculas(s: Seq<char>) -> Seq<char>;

/// Whether `c` is a whitespace character (Unicode `White_Space`).
pub fn eh_espaco(c: char) -> (r: bool)
    ensures
        r == espaco_em_branco(c),
{
    let n = c as u32;
    (0x09 <= n && n <= 0x0d) || n == 0x20 || n == 0x85 || n == 0xa0 || n == 0x1680
        || (0x2000 <= n && n <= 0x200a) || n == 0x2028 || n == 0x2029 || n == 0x202f
        || n == 0x205f || n == 0x3000
}

/// Whether `c` is alphabetic or numeric.
pub fn eh_alfanumerico(c: char) -> (r: bool)
    ensures
        r == alfanumerico(c),
{
    let n = c as u32;
    if n < 0xd7b0 {
        if n < 0xf88 {
            if n < 0xac7 {
                if n < 0x840 {
                    if n < 0x48a {
                        if n < 0x2ec {
                            if n < 0xb9 {
                                if n < 0xaa {
                                    (0x30 <= n && n <= 0x39) || (0x41 <= n && n <= 0x5a) || (0x61 <= n && n <= 0x7a)
                                } else {
                                    n == 0xaa || (0xb2 <= n && n <= 0xb3) || n == 0xb5
                                }
                            } else {
                                if n < 0xd8 {
                                    (0xb9 <= n && n <= 0xba) || (0xbc <= n && n <= 0xbe) || (0xc0 <= n && n <= 0xd6)
                                } else {
                                    (0xd8 <= n && n <= 0xf6) || (0xf8 <= n && n <= 0x2c1) || (0x2c6 <= n && n <= 0x2d1) || (0x2e0 <= n && n <= 0x2e4)
                                }
                            }
                        } else {
                            if n < 0x37f {
                                if n < 0x363 {
                                    n == 0x2ec || n == 0x2ee || n == 0x345
                                } else {
                                    (0x363 <= n && n <= 0x374) || (0x376 <= n && n <= 0x377) || (0x37a <= n && n <= 0x37d)
                                }
                            } else {
                                if n < 0x38c {
                                    n == 0x37f || n == 0x386 || (0x388 <= n && n <= 0x38a)
                                } else {
                                    n == 0x38c || (0x38e <= n && n <= 0x3a1) || (0x3a3 <= n && n <= 0x3f5) || (0x3f7 <= n && n <= 0x481)
                                }
                            }
                        }
                    } else {
                        if n < 0x659 {
                            if n < 0x5c1 {
                                if n < 0x560 {
                                    (0x48a <= n && n <= 0x52f) || (0x531 <= n && n <= 0x556) || n == 0x559
                                } else {
                                    (0x560 <= n && n <= 0x588) || (0x5b0 <= n && n <= 0x5bd) || n == 0x5bf
                                }
                            } else {
                                if n < 0x5d0 {
                                    (0x5c1 <= n && n <= 0x5c2) || (0x5c4 <= n && n <= 0x5c5) || n == 0x5c7
                                } else {
                                    (0x5d0 <= n && n <= 0x5ea) || (0x5ef <= n && n <= 0x5f2) || (0x610 <= n && n <= 0x61a) || (0x620 <= n && n <= 0x657)
                                }
                            }
                        } else {
                            if n < 0x710 {
                                if n < 0x6e1 {
                                    (0x659 <= n && n <= 0x669) || (0x66e <= n && n <= 0x6d3) || (0x6d5 <= n && n <= 0x6dc)
                                } else {
                                    (0x6e1 <= n && n <= 0x6e8) || (0x6ed <= n && n <= 0x6fc) || n == 0x6ff
                                }
                            } else {
                                if n < 0x7f4 {
                                    (0x710 <= n && n <= 0x73f) || (0x74d <= n && n <= 0x7b1) || (0x7c0 <= n && n <= 0x7ea)
                                } else {
                                    (0x7f4 <= n && n <= 0x7f5) || n == 0x7fa || (0x800 <= n && n <= 0x817) || (0x81a <= n && n <= 0x82c)
                                }
                            }
                        }
                    }
                } else {
                    if n < 0x9df {
                        if n < 0x971 {
                            if n < 0x8d4 {
                                if n < 0x889 {
                                    (0x840 <= n && n <= 0x858) || (0x860 <= n && n <= 0x86a) || (0x870 <= n && n <= 0x887)
                                } else {
                                    (0x889 <= n && n <= 0x88f) || n == 0x897 || (0x8a0 <= n && n <= 0x8c9)
                                }
                            } else {
                                if n < 0x93d {
                                    (0x8d4 <= n && n <= 0x8df) || (0x8e3 <= n && n <= 0x8e9) || (0x8f0 <= n && n <= 0x93b)
                                } else {
                                    (0x93d <= n && n <= 0x94c) || (0x94e <= n && n <= 0x950) || (0x955 <= n && n <= 0x963) || (0x966 <= n && n <= 0x96f)
                                }
                            }
                        } else {
                            if n < 0x9b6 {
                                if n < 0x993 {
                                    (0x971 <= n && n <= 0x983) || (0x985 <= n && n <= 0x98c) || (0x98f <= n && n <= 0x990)
                                } else {
                                    (0x993 <= n && n <= 0x9a8) || (0x9aa <= n && n <= 0x9b0) || n == 0x9b2
                                }
                            } else {
                                if n < 0x9cb {
                                    (0x9b6 <= n && n <= 0x9b9) || (0x9bd <= n && n <= 0x9c4) || (0x9c7 <= n && n <= 0x9c8)
                                } else {
                                    (0x9cb <= n && n <= 0x9cc) || n == 0x9ce || n == 0x9d7 || (0x9dc <= n && n <= 0x9dd)
                                }
                            }
                        }
                    } else {
                        if n < 0xa47 {
                            if n < 0xa0f {
                                if n < 0x9fc {
                                    (0x9df <= n && n <= 0x9e3) || (0x9e6 <= n && n <= 0x9f1) || (0x9f4 <= n && n <= 0x9f9)
                                } else {
                                    n == 0x9fc || (0xa01 <= n && n <= 0xa03) || (0xa05 <= n && n <= 0xa0a)
                                }
                            } else {
                                if n < 0xa32 {
                                    (0xa0f <= n && n <= 0xa10) || (0xa13 <= n && n <= 0xa28) || (0xa2a <= n && n <= 0xa30)
                                } else {
                                    (0xa32 <= n && n <= 0xa33) || (0xa35 <= n && n <= 0xa36) || (0xa38 <= n && n <= 0xa39) || (0xa3e <= n && n <= 0xa42)
                                }
                            }
                        } else {
                            if n < 0xa85 {
                                if n < 0xa59 {
                                    (0xa47 <= n && n <= 0xa48) || (0xa4b <= n && n <= 0xa4c) || n == 0xa51
                                } else {
                                    (0xa59 <= n && n <= 0xa5c) || n == 0xa5e || (0xa66 <= n && n <= 0xa75) || (0xa81 <= n && n <= 0xa83)
                                }
                            } else {
                                if n < 0xaaa {
                                    (0xa85 <= n && n <= 0xa8d) || (0xa8f <= n && n <= 0xa91) || (0xa93 <= n && n <= 0xaa8)
                                } else {
                                    (0xaaa <= n && n <= 0xab0) || (0xab2 <= n && n <= 0xab3) || (0xab5 <= n && n <= 0xab9) || (0xabd <= n && n <= 0xac5)
                                }
                            }
                        }
                    }
                }
            } else {
                if n < 0xc92 {
                    if n < 0xb9c {
                        if n < 0xb3d {
                            if n < 0xb01 {
                                if n < 0xae0 {
                                    (0xac7 <= n && n <= 0xac9) || (0xacb <= n && n <= 0xacc) || n == 0xad0
                                } else {
                                    (0xae0 <= n && n <= 0xae3) || (0xae6 <= n && n <= 0xaef) || (0xaf9 <= n && n <= 0xafc)
                                }
                            } else {
                                if n < 0xb13 {
                                    (0xb01 <= n && n <= 0xb03) || (0xb05 <= n && n <= 0xb0c) || (0xb0f <= n && n <= 0xb10)
                                } else {
                                    (0xb13 <= n && n <= 0xb28) || (0xb2a <= n && n <= 0xb30) || (0xb32 <= n && n <= 0xb33) || (0xb35 <= n && n <= 0xb39)
                                }
                            }
                        } else {
                            if n < 0xb66 {
                                if n < 0xb56 {
                                    (0xb3d <= n && n <= 0xb44) || (0xb47 <= n && n <= 0xb48) || (0xb4b <= n && n <= 0xb4c)
                                } else {
                                    (0xb56 <= n && n <= 0xb57) || (0xb5c <= n && n <= 0xb5d) || (0xb5f <= n && n <= 0xb63)
                                }
                            } else {
                                if n < 0xb85 {
                                    (0xb66 <= n && n <= 0xb6f) || (0xb71 <= n && n <= 0xb77) || (0xb82 <= n && n <= 0xb83)
                                } else {
                                    (0xb85 <= n && n <= 0xb8a) || (0xb8e <= n && n <= 0xb90) || (0xb92 <= n && n <= 0xb95) || (0xb99 <= n && n <= 0xb9a)
                                }
                            }
                        }
                    } else {
                        if n < 0xc12 {
                            if n < 0xbc6 {
                                if n < 0xba8 {
                                    n == 0xb9c || (0xb9e <= n && n <= 0xb9f) || (0xba3 <= n && n <= 0xba4)
                                } else {
                                    (0xba8 <= n && n <= 0xbaa) || (0xbae <= n && n <= 0xbb9) || (0xbbe <= n && n <= 0xbc2)
                                }
                            } else {
                                if n < 0xbd7 {
                                    (0xbc6 <= n && n <= 0xbc8) || (0xbca <= n && n <= 0xbcc) || n == 0xbd0
                                } else {
                                    n == 0xbd7 || (0xbe6 <= n && n <= 0xbf2) || (0xc00 <= n && n <= 0xc0c) || (0xc0e <= n && n <= 0xc10)
                                }
                            }
                        } else {
                            if n < 0xc5c {
                                if n < 0xc46 {
                                    (0xc12 <= n && n <= 0xc28) || (0xc2a <= n && n <= 0xc39) || (0xc3d <= n && n <= 0xc44)
                                } else {
                                    (0xc46 <= n && n <= 0xc48) || (0xc4a <= n && n <= 0xc4c) || (0xc55 <= n && n <= 0xc56) || (0xc58 <= n && n <= 0xc5a)
                                }
                            } else {
                                if n < 0xc78 {
                                    (0xc5c <= n && n <= 0xc5d) || (0xc60 <= n && n <= 0xc63) || (0xc66 <= n && n <= 0xc6f)
                                } else {
                                    (0xc78 <= n && n <= 0xc7e) || (0xc80 <= n && n <= 0xc83) || (0xc85 <= n && n <= 0xc8c) || (0xc8e <= n && n <= 0xc90)
                                }
                            }
                        }
                    }
                } else {
                    if n < 0xdc0 {
                        if n < 0xd12 {
                            if n < 0xcd5 {
                                if n < 0xcbd {
                                    (0xc92 <= n && n <= 0xca8) || (0xcaa <= n && n <= 0xcb3) || (0xcb5 <= n && n <= 0xcb9)
                                } else {
                                    (0xcbd <= n && n <= 0xcc4) || (0xcc6 <= n && n <= 0xcc8) || (0xcca <= n && n <= 0xccc)
                                }
                            } else {
                                if n < 0xce6 {
                                    (0xcd5 <= n && n <= 0xcd6) || (0xcdc <= n && n <= 0xcde) || (0xce0 <= n && n <= 0xce3)
                                } else {
                                    (0xce6 <= n && n <= 0xcef) || (0xcf1 <= n && n <= 0xcf3) || (0xd00 <= n && n <= 0xd0c) || (0xd0e <= n && n <= 0xd10)
                                }
                            }
                        } else {
                            if n < 0xd66 {
                                if n < 0xd4a {
                                    (0xd12 <= n && n <= 0xd3a) || (0xd3d <= n && n <= 0xd44) || (0xd46 <= n && n <= 0xd48)
                                } else {
                                    (0xd4a <= n && n <= 0xd4c) || n == 0xd4e || (0xd54 <= n && n <= 0xd63)
                                }
                            } else {
                                if n < 0xd85 {
                                    (0xd66 <= n && n <= 0xd78) || (0xd7a <= n && n <= 0xd7f) || (0xd81 <= n && n <= 0xd83)
                                } else {
                                    (0xd85 <= n && n <= 0xd96) || (0xd9a <= n && n <= 0xdb1) || (0xdb3 <= n && n <= 0xdbb) || n == 0xdbd
                                }
                            }
                        }
                    } else {
                        if n < 0xe8c {
                            if n < 0xe01 {
                                if n < 0xdd8 {
                                    (0xdc0 <= n && n <= 0xdc6) || (0xdcf <= n && n <= 0xdd4) || n == 0xdd6
                                } else {
                                    (0xdd8 <= n && n <= 0xddf) || (0xde6 <= n && n <= 0xdef) || (0xdf2 <= n && n <= 0xdf3)
                                }
                            } else {
                                if n < 0xe50 {
                                    (0xe01 <= n && n <= 0xe3a) || (0xe40 <= n && n <= 0xe46) || n == 0xe4d
                                } else {
                                    (0xe50 <= n && n <= 0xe59) || (0xe81 <= n && n <= 0xe82) || n == 0xe84 || (0xe86 <= n && n <= 0xe8a)
                                }
                            }
                        } else {
                            if n < 0xed0 {
                                if n < 0xebb {
                                    (0xe8c <= n && n <= 0xea3) || n == 0xea5 || (0xea7 <= n && n <= 0xeb9)
                                } else {
                                    (0xebb <= n && n <= 0xebd) || (0xec0 <= n && n <= 0xec4) || n == 0xec6 || n == 0xecd
                                }
                            } else {
                                if n < 0xf20 {
                                    (0xed0 <= n && n <= 0xed9) || (0xedc <= n && n <= 0xedf) || n == 0xf00
                                } else {
                                    (0xf20 <= n && n <= 0xf33) || (0xf40 <= n && n <= 0xf47) || (0xf49 <= n && n <= 0xf6c) || (0xf71 <= n && n <= 0xf83)
                                }
                            }
                        }
                    }
                }
            }
        } else {
            if n < 0x2070 {
                if n < 0x1920 {
                    if n < 0x1369 {
                        if n < 0x1258 {
                            if n < 0x10a0 {
                                if n < 0x1038 {
                                    (0xf88 <= n && n <= 0xf97) || (0xf99 <= n && n <= 0xfbc) || (0x1000 <= n && n <= 0x1036)
                                } else {
                                    n == 0x1038 || (0x103b <= n && n <= 0x1049) || (0x1050 <= n && n <= 0x109d)
                                }
                            } else {
                                if n < 0x10d0 {
                                    (0x10a0 <= n && n <= 0x10c5) || n == 0x10c7 || n == 0x10cd
                                } else {
                                    (0x10d0 <= n && n <= 0x10fa) || (0x10fc <= n && n <= 0x1248) || (0x124a <= n && n <= 0x124d) || (0x1250 <= n && n <= 0x1256)
                                }
                            }
                        } else {
                            if n < 0x12b8 {
                                if n < 0x128a {
                                    n == 0x1258 || (0x125a <= n && n <= 0x125d) || (0x1260 <= n && n <= 0x1288)
                                } else {
                                    (0x128a <= n && n <= 0x128d) || (0x1290 <= n && n <= 0x12b0) || (0x12b2 <= n && n <= 0x12b5)
                                }
                            } else {
                                if n < 0x12c8 {
                                    (0x12b8 <= n && n <= 0x12be) || n == 0x12c0 || (0x12c2 <= n && n <= 0x12c5)
                                } else {
                                    (0x12c8 <= n && n <= 0x12d6) || (0x12d8 <= n && n <= 0x1310) || (0x1312 <= n && n <= 0x1315) || (0x1318 <= n && n <= 0x135a)
                                }
                            }
                        }
                    } else {
                        if n < 0x176e {
                            if n < 0x1681 {
                                if n < 0x13f8 {
                                    (0x1369 <= n && n <= 0x137c) || (0x1380 <= n && n <= 0x138f) || (0x13a0 <= n && n <= 0x13f5)
                                } else {
                                    (0x13f8 <= n && n <= 0x13fd) || (0x1401 <= n && n <= 0x166c) || (0x166f <= n && n <= 0x167f)
                                }
                            } else {
                                if n < 0x1700 {
                                    (0x1681 <= n && n <= 0x169a) || (0x16a0 <= n && n <= 0x16ea) || (0x16ee <= n && n <= 0x16f8)
                                } else {
                                    (0x1700 <= n && n <= 0x1713) || (0x171f <= n && n <= 0x1733) || (0x1740 <= n && n <= 0x1753) || (0x1760 <= n && n <= 0x176c)
                                }
                            }
                        } else {
                            if n < 0x17e0 {
                                if n < 0x17b6 {
                                    (0x176e <= n && n <= 0x1770) || (0x1772 <= n && n <= 0x1773) || (0x1780 <= n && n <= 0x17b3)
                                } else {
                                    (0x17b6 <= n && n <= 0x17c8) || n == 0x17d7 || n == 0x17dc
                                }
                            } else {
                                if n < 0x1820 {
                                    (0x17e0 <= n && n <= 0x17e9) || (0x17f0 <= n && n <= 0x17f9) || (0x1810 <= n && n <= 0x1819)
                                } else {
                                    (0x1820 <= n && n <= 0x1878) || (0x1880 <= n && n <= 0x18aa) || (0x18b0 <= n && n <= 0x18f5) || (0x1900 <= n && n <= 0x191e)
                                }
                            }
                        }
                    }
                } else {
                    if n < 0x1c90 {
                        if n < 0x1abf {
                            if n < 0x19d0 {
                                if n < 0x1970 {
                                    (0x1920 <= n && n <= 0x192b) || (0x1930 <= n && n <= 0x1938) || (0x1946 <= n && n <= 0x196d)
                                } else {
                                    (0x1970 <= n && n <= 0x1974) || (0x1980 <= n && n <= 0x19ab) || (0x19b0 <= n && n <= 0x19c9)
                                }
                            } else {
                                if n < 0x1a61 {
                                    (0x19d0 <= n && n <= 0x19da) || (0x1a00 <= n && n <= 0x1a1b) || (0x1a20 <= n && n <= 0x1a5e)
                                } else {
                                    (0x1a61 <= n && n <= 0x1a74) || (0x1a80 <= n && n <= 0x1a89) || (0x1a90 <= n && n <= 0x1a99) || n == 0x1aa7
                                }
                            }
                        } else {
                            if n < 0x1b80 {
                                if n < 0x1b35 {
                                    (0x1abf <= n && n <= 0x1ac0) || (0x1acc <= n && n <= 0x1ace) || (0x1b00 <= n && n <= 0x1b33)
                                } else {
                                    (0x1b35 <= n && n <= 0x1b43) || (0x1b45 <= n && n <= 0x1b4c) || (0x1b50 <= n && n <= 0x1b59)
                                }
                            } else {
                                if n < 0x1c00 {
                                    (0x1b80 <= n && n <= 0x1ba9) || (0x1bac <= n && n <= 0x1be5) || (0x1be7 <= n && n <= 0x1bf1)
                                } else {
                                    (0x1c00 <= n && n <= 0x1c36) || (0x1c40 <= n && n <= 0x1c49) || (0x1c4d <= n && n <= 0x1c7d) || (0x1c80 <= n && n <= 0x1c8a)
                                }
                            }
                        }
                    } else {
                        if n < 0x1f59 {
                            if n < 0x1d00 {
                                if n < 0x1cee {
                                    (0x1c90 <= n && n <= 0x1cba) || (0x1cbd <= n && n <= 0x1cbf) || (0x1ce9 <= n && n <= 0x1cec)
                                } else {
                                    (0x1cee <= n && n <= 0x1cf3) || (0x1cf5 <= n && n <= 0x1cf6) || n == 0x1cfa
                                }
                            } else {
                                if n < 0x1f18 {
                                    (0x1d00 <= n && n <= 0x1dbf) || (0x1dd3 <= n && n <= 0x1df4) || (0x1e00 <= n && n <= 0x1f15)
                                } else {
                                    (0x1f18 <= n && n <= 0x1f1d) || (0x1f20 <= n && n <= 0x1f45) || (0x1f48 <= n && n <= 0x1f4d) || (0x1f50 <= n && n <= 0x1f57)
                                }
                            }
                        } else {
                            if n < 0x1fc2 {
                                if n < 0x1f5f {
                                    n == 0x1f59 || n == 0x1f5b || n == 0x1f5d
                                } else {
                                    (0x1f5f <= n && n <= 0x1f7d) || (0x1f80 <= n && n <= 0x1fb4) || (0x1fb6 <= n && n <= 0x1fbc) || n == 0x1fbe
                                }
                            } else {
                                if n < 0x1fd6 {
                                    (0x1fc2 <= n && n <= 0x1fc4) || (0x1fc6 <= n && n <= 0x1fcc) || (0x1fd0 <= n && n <= 0x1fd3)
                                } else {
                                    (0x1fd6 <= n && n <= 0x1fdb) || (0x1fe0 <= n && n <= 0x1fec) || (0x1ff2 <= n && n <= 0x1ff4) || (0x1ff6 <= n && n <= 0x1ffc)
                                }
                            }
                        }
                    }
                }
            } else {
                if n < 0x31f0 {
                    if n < 0x2d27 {
                        if n < 0x212f {
                            if n < 0x210a {
                                if n < 0x2090 {
                                    (0x2070 <= n && n <= 0x2071) || (0x2074 <= n && n <= 0x2079) || (0x207f <= n && n <= 0x2089)
                                } else {
                                    (0x2090 <= n && n <= 0x209c) || n == 0x2102 || n == 0x2107
                                }
                            } else {
                                if n < 0x2124 {
                                    (0x210a <= n && n <= 0x2113) || n == 0x2115 || (0x2119 <= n && n <= 0x211d)
                                } else {
                                    n == 0x2124 || n == 0x2126 || n == 0x2128 || (0x212a <= n && n <= 0x212d)
                                }
                            }
                        } else {
                            if n < 0x24b6 {
                                if n < 0x214e {
                                    (0x212f <= n && n <= 0x2139) || (0x213c <= n && n <= 0x213f) || (0x2145 <= n && n <= 0x2149)
                                } else {
                                    n == 0x214e || (0x2150 <= n && n <= 0x2189) || (0x2460 <= n && n <= 0x249b)
                                }
                            } else {
                                if n < 0x2ceb {
                                    (0x24b6 <= n && n <= 0x24ff) || (0x2776 <= n && n <= 0x2793) || (0x2c00 <= n && n <= 0x2ce4)
                                } else {
                                    (0x2ceb <= n && n <= 0x2cee) || (0x2cf2 <= n && n <= 0x2cf3) || n == 0x2cfd || (0x2d00 <= n && n <= 0x2d25)
                                }
                            }
                        }
                    } else {
                        if n < 0x2de0 {
                            if n < 0x2da8 {
                                if n < 0x2d6f {
                                    n == 0x2d27 || n == 0x2d2d || (0x2d30 <= n && n <= 0x2d67)
                                } else {
                                    n == 0x2d6f || (0x2d80 <= n && n <= 0x2d96) || (0x2da0 <= n && n <= 0x2da6)
                                }
                            } else {
                                if n < 0x2dc0 {
                                    (0x2da8 <= n && n <= 0x2dae) || (0x2db0 <= n && n <= 0x2db6) || (0x2db8 <= n && n <= 0x2dbe)
                                } else {
                                    (0x2dc0 <= n && n <= 0x2dc6) || (0x2dc8 <= n && n <= 0x2dce) || (0x2dd0 <= n && n <= 0x2dd6) || (0x2dd8 <= n && n <= 0x2dde)
                                }
                            }
                        } else {
                            if n < 0x309d {
                                if n < 0x3021 {
                                    (0x2de0 <= n && n <= 0x2dff) || n == 0x2e2f || (0x3005 <= n && n <= 0x3007)
                                } else {
                                    (0x3021 <= n && n <= 0x3029) || (0x3031 <= n && n <= 0x3035) || (0x3038 <= n && n <= 0x303c) || (0x3041 <= n && n <= 0x3096)
                                }
                            } else {
                                if n < 0x3105 {
                                    (0x309d <= n && n <= 0x309f) || (0x30a1 <= n && n <= 0x30fa) || (0x30fc <= n && n <= 0x30ff)
                                } else {
                                    (0x3105 <= n && n <= 0x312f) || (0x3131 <= n && n <= 0x318e) || (0x3192 <= n && n <= 0x3195) || (0x31a0 <= n && n <= 0x31bf)
                                }
                            }
                        }
                    }
                } else {
                    if n < 0xa8fd {
                        if n < 0xa67f {
                            if n < 0x3400 {
                                if n < 0x3251 {
                                    (0x31f0 <= n && n <= 0x31ff) || (0x3220 <= n && n <= 0x3229) || (0x3248 <= n && n <= 0x324f)
                                } else {
                                    (0x3251 <= n && n <= 0x325f) || (0x3280 <= n && n <= 0x3289) || (0x32b1 <= n && n <= 0x32bf)
                                }
                            } else {
                                if n < 0xa500 {
                                    (0x3400 <= n && n <= 0x4dbf) || (0x4e00 <= n && n <= 0xa48c) || (0xa4d0 <= n && n <= 0xa4fd)
                                } else {
                                    (0xa500 <= n && n <= 0xa60c) || (0xa610 <= n && n <= 0xa62b) || (0xa640 <= n && n <= 0xa66e) || (0xa674 <= n && n <= 0xa67b)
                                }
                            }
                        } else {
                            if n < 0xa830 {
                                if n < 0xa78b {
                                    (0xa67f <= n && n <= 0xa6ef) || (0xa717 <= n && n <= 0xa71f) || (0xa722 <= n && n <= 0xa788)
                                } else {
                                    (0xa78b <= n && n <= 0xa7dc) || (0xa7f1 <= n && n <= 0xa805) || (0xa807 <= n && n <= 0xa827)
                                }
                            } else {
                                if n < 0xa8c5 {
                                    (0xa830 <= n && n <= 0xa835) || (0xa840 <= n && n <= 0xa873) || (0xa880 <= n && n <= 0xa8c3)
                                } else {
                                    n == 0xa8c5 || (0xa8d0 <= n && n <= 0xa8d9) || (0xa8f2 <= n && n <= 0xa8f7) || n == 0xa8fb
                                }
                            }
                        }
                    } else {
                        if n < 0xaac2 {
                            if n < 0xa9e0 {
                                if n < 0xa980 {
                                    (0xa8fd <= n && n <= 0xa92a) || (0xa930 <= n && n <= 0xa952) || (0xa960 <= n && n <= 0xa97c)
                                } else {
                                    (0xa980 <= n && n <= 0xa9b2) || (0xa9b4 <= n && n <= 0xa9bf) || (0xa9cf <= n && n <= 0xa9d9)
                                }
                            } else {
                                if n < 0xaa50 {
                                    (0xa9e0 <= n && n <= 0xa9fe) || (0xaa00 <= n && n <= 0xaa36) || (0xaa40 <= n && n <= 0xaa4d)
                                } else {
                                    (0xaa50 <= n && n <= 0xaa59) || (0xaa60 <= n && n <= 0xaa76) || (0xaa7a <= n && n <= 0xaabe) || n == 0xaac0
                                }
                            }
                        } else {
                            if n < 0xab20 {
                                if n < 0xaaf2 {
                                    n == 0xaac2 || (0xaadb <= n && n <= 0xaadd) || (0xaae0 <= n && n <= 0xaaef)
                                } else {
                                    (0xaaf2 <= n && n <= 0xaaf5) || (0xab01 <= n && n <= 0xab06) || (0xab09 <= n && n <= 0xab0e) || (0xab11 <= n && n <= 0xab16)
                                }
                            } else {
                                if n < 0xab5c {
                                    (0xab20 <= n && n <= 0xab26) || (0xab28 <= n && n <= 0xab2e) || (0xab30 <= n && n <= 0xab5a)
                                } else {
                                    (0xab5c <= n && n <= 0xab69) || (0xab70 <= n && n <= 0xabea) || (0xabf0 <= n && n <= 0xabf9) || (0xac00 <= n && n <= 0xd7a3)
                                }
                            }
                        }
                    }
                }
            }
        }
    } else {
        if n < 0x119e3 {
            if n < 0x10d40 {
                if n < 0x10530 {
                    if n < 0xffda {
                        if n < 0xfbd3 {
                            if n < 0xfb1d {
                                if n < 0xfa70 {
                                    (0xd7b0 <= n && n <= 0xd7c6) || (0xd7cb <= n && n <= 0xd7fb) || (0xf900 <= n && n <= 0xfa6d)
                                } else {
                                    (0xfa70 <= n && n <= 0xfad9) || (0xfb00 <= n && n <= 0xfb06) || (0xfb13 <= n && n <= 0xfb17)
                                }
                            } else {
                                if n < 0xfb3e {
                                    (0xfb1d <= n && n <= 0xfb28) || (0xfb2a <= n && n <= 0xfb36) || (0xfb38 <= n && n <= 0xfb3c)
                                } else {
                                    n == 0xfb3e || (0xfb40 <= n && n <= 0xfb41) || (0xfb43 <= n && n <= 0xfb44) || (0xfb46 <= n && n <= 0xfbb1)
                                }
                            }
                        } else {
                            if n < 0xff10 {
                                if n < 0xfdf0 {
                                    (0xfbd3 <= n && n <= 0xfd3d) || (0xfd50 <= n && n <= 0xfd8f) || (0xfd92 <= n && n <= 0xfdc7)
                                } else {
                                    (0xfdf0 <= n && n <= 0xfdfb) || (0xfe70 <= n && n <= 0xfe74) || (0xfe76 <= n && n <= 0xfefc)
                                }
                            } else {
                                if n < 0xff66 {
                                    (0xff10 <= n && n <= 0xff19) || (0xff21 <= n && n <= 0xff3a) || (0xff41 <= n && n <= 0xff5a)
                                } else {
                                    (0xff66 <= n && n <= 0xffbe) || (0xffc2 <= n && n <= 0xffc7) || (0xffca <= n && n <= 0xffcf) || (0xffd2 <= n && n <= 0xffd7)
                                }
                            }
                        }
                    } else {
                        if n < 0x102e1 {
                            if n < 0x10050 {
                                if n < 0x10028 {
                                    (0xffda <= n && n <= 0xffdc) || (0x10000 <= n && n <= 0x1000b) || (0x1000d <= n && n <= 0x10026)
                                } else {
                                    (0x10028 <= n && n <= 0x1003a) || (0x1003c <= n && n <= 0x1003d) || (0x1003f <= n && n <= 0x1004d)
                                }
                            } else {
                                if n < 0x10140 {
                                    (0x10050 <= n && n <= 0x1005d) || (0x10080 <= n && n <= 0x100fa) || (0x10107 <= n && n <= 0x10133)
                                } else {
                                    (0x10140 <= n && n <= 0x10178) || (0x1018a <= n && n <= 0x1018b) || (0x10280 <= n && n <= 0x1029c) || (0x102a0 <= n && n <= 0x102d0)
                                }
                            }
                        } else {
                            if n < 0x103c8 {
                                if n < 0x10350 {
                                    (0x102e1 <= n && n <= 0x102fb) || (0x10300 <= n && n <= 0x10323) || (0x1032d <= n && n <= 0x1034a)
                                } else {
                                    (0x10350 <= n && n <= 0x1037a) || (0x10380 <= n && n <= 0x1039d) || (0x103a0 <= n && n <= 0x103c3)
                                }
                            } else {
                                if n < 0x104a0 {
                                    (0x103c8 <= n && n <= 0x103cf) || (0x103d1 <= n && n <= 0x103d5) || (0x10400 <= n && n <= 0x1049d)
                                } else {
                                    (0x104a0 <= n && n <= 0x104a9) || (0x104b0 <= n && n <= 0x104d3) || (0x104d8 <= n && n <= 0x104fb) || (0x10500 <= n && n <= 0x10527)
                                }
                            }
                        }
                    }
                } else {
                    if n < 0x108f4 {
                        if n < 0x10780 {
                            if n < 0x105a3 {
                                if n < 0x1058c {
                                    (0x10530 <= n && n <= 0x10563) || (0x10570 <= n && n <= 0x1057a) || (0x1057c <= n && n <= 0x1058a)
                                } else {
                                    (0x1058c <= n && n <= 0x10592) || (0x10594 <= n && n <= 0x10595) || (0x10597 <= n && n <= 0x105a1)
                                }
                            } else {
                                if n < 0x105c0 {
                                    (0x105a3 <= n && n <= 0x105b1) || (0x105b3 <= n && n <= 0x105b9) || (0x105bb <= n && n <= 0x105bc)
                                } else {
                                    (0x105c0 <= n && n <= 0x105f3) || (0x10600 <= n && n <= 0x10736) || (0x10740 <= n && n <= 0x10755) || (0x10760 <= n && n <= 0x10767)
                                }
                            }
                        } else {
                            if n < 0x10837 {
                                if n < 0x10800 {
                                    (0x10780 <= n && n <= 0x10785) || (0x10787 <= n && n <= 0x107b0) || (0x107b2 <= n && n <= 0x107ba)
                                } else {
                                    (0x10800 <= n && n <= 0x10805) || n == 0x10808 || (0x1080a <= n && n <= 0x10835)
                                }
                            } else {
                                if n < 0x10858 {
                                    (0x10837 <= n && n <= 0x10838) || n == 0x1083c || (0x1083f <= n && n <= 0x10855)
                                } else {
                                    (0x10858 <= n && n <= 0x10876) || (0x10879 <= n && n <= 0x1089e) || (0x108a7 <= n && n <= 0x108af) || (0x108e0 <= n && n <= 0x108f2)
                                }
                            }
                        }
                    } else {
                        if n < 0x10a80 {
                            if n < 0x109d2 {
                                if n < 0x10940 {
                                    (0x108f4 <= n && n <= 0x108f5) || (0x108fb <= n && n <= 0x1091b) || (0x10920 <= n && n <= 0x10939)
                                } else {
                                    (0x10940 <= n && n <= 0x10959) || (0x10980 <= n && n <= 0x109b7) || (0x109bc <= n && n <= 0x109cf)
                                }
                            } else {
                                if n < 0x10a15 {
                                    (0x109d2 <= n && n <= 0x10a03) || (0x10a05 <= n && n <= 0x10a06) || (0x10a0c <= n && n <= 0x10a13)
                                } else {
                                    (0x10a15 <= n && n <= 0x10a17) || (0x10a19 <= n && n <= 0x10a35) || (0x10a40 <= n && n <= 0x10a48) || (0x10a60 <= n && n <= 0x10a7e)
                                }
                            }
                        } else {
                            if n < 0x10b78 {
                                if n < 0x10aeb {
                                    (0x10a80 <= n && n <= 0x10a9f) || (0x10ac0 <= n && n <= 0x10ac7) || (0x10ac9 <= n && n <= 0x10ae4)
                                } else {
                                    (0x10aeb <= n && n <= 0x10aef) || (0x10b00 <= n && n <= 0x10b35) || (0x10b40 <= n && n <= 0x10b55) || (0x10b58 <= n && n <= 0x10b72)
                                }
                            } else {
                                if n < 0x10c80 {
                                    (0x10b78 <= n && n <= 0x10b91) || (0x10ba9 <= n && n <= 0x10baf) || (0x10c00 <= n && n <= 0x10c48)
                                } else {
                                    (0x10c80 <= n && n <= 0x10cb2) || (0x10cc0 <= n && n <= 0x10cf2) || (0x10cfa <= n && n <= 0x10d27) || (0x10d30 <= n && n <= 0x10d39)
                                }
                            }
                        }
                    }
                }
            } else {
                if n < 0x11350 {
                    if n < 0x11176 {
                        if n < 0x10fb0 {
                            if n < 0x10eb0 {
                                if n < 0x10e60 {
                                    (0x10d40 <= n && n <= 0x10d65) || n == 0x10d69 || (0x10d6f <= n && n <= 0x10d85)
                                } else {
                                    (0x10e60 <= n && n <= 0x10e7e) || (0x10e80 <= n && n <= 0x10ea9) || (0x10eab <= n && n <= 0x10eac)
                                }
                            } else {
                                if n < 0x10f00 {
                                    (0x10eb0 <= n && n <= 0x10eb1) || (0x10ec2 <= n && n <= 0x10ec7) || (0x10efa <= n && n <= 0x10efc)
                                } else {
                                    (0x10f00 <= n && n <= 0x10f27) || (0x10f30 <= n && n <= 0x10f45) || (0x10f51 <= n && n <= 0x10f54) || (0x10f70 <= n && n <= 0x10f81)
                                }
                            }
                        } else {
                            if n < 0x110c2 {
                                if n < 0x11052 {
                                    (0x10fb0 <= n && n <= 0x10fcb) || (0x10fe0 <= n && n <= 0x10ff6) || (0x11000 <= n && n <= 0x11045)
                                } else {
                                    (0x11052 <= n && n <= 0x1106f) || (0x11071 <= n && n <= 0x11075) || (0x11080 <= n && n <= 0x110b8)
                                }
                            } else {
                                if n < 0x11100 {
                                    n == 0x110c2 || (0x110d0 <= n && n <= 0x110e8) || (0x110f0 <= n && n <= 0x110f9)
                                } else {
                                    (0x11100 <= n && n <= 0x11132) || (0x11136 <= n && n <= 0x1113f) || (0x11144 <= n && n <= 0x11147) || (0x11150 <= n && n <= 0x11172)
                                }
                            }
                        }
                    } else {
                        if n < 0x1128f {
                            if n < 0x11200 {
                                if n < 0x111ce {
                                    n == 0x11176 || (0x11180 <= n && n <= 0x111bf) || (0x111c1 <= n && n <= 0x111c4)
                                } else {
                                    (0x111ce <= n && n <= 0x111da) || n == 0x111dc || (0x111e1 <= n && n <= 0x111f4)
                                }
                            } else {
                                if n < 0x1123e {
                                    (0x11200 <= n && n <= 0x11211) || (0x11213 <= n && n <= 0x11234) || n == 0x11237
                                } else {
                                    (0x1123e <= n && n <= 0x11241) || (0x11280 <= n && n <= 0x11286) || n == 0x11288 || (0x1128a <= n && n <= 0x1128d)
                                }
                            }
                        } else {
                            if n < 0x11313 {
                                if n < 0x112f0 {
                                    (0x1128f <= n && n <= 0x1129d) || (0x1129f <= n && n <= 0x112a8) || (0x112b0 <= n && n <= 0x112e8)
                                } else {
                                    (0x112f0 <= n && n <= 0x112f9) || (0x11300 <= n && n <= 0x11303) || (0x11305 <= n && n <= 0x1130c) || (0x1130f <= n && n <= 0x11310)
                                }
                            } else {
                                if n < 0x11335 {
                                    (0x11313 <= n && n <= 0x11328) || (0x1132a <= n && n <= 0x11330) || (0x11332 <= n && n <= 0x11333)
                                } else {
                                    (0x11335 <= n && n <= 0x11339) || (0x1133d <= n && n <= 0x11344) || (0x11347 <= n && n <= 0x11348) || (0x1134b <= n && n <= 0x1134c)
                                }
                            }
                        }
                    }
                } else {
                    if n < 0x11600 {
                        if n < 0x113d3 {
                            if n < 0x11390 {
                                if n < 0x11380 {
                                    n == 0x11350 || n == 0x11357 || (0x1135d <= n && n <= 0x11363)
                                } else {
                                    (0x11380 <= n && n <= 0x11389) || n == 0x1138b || n == 0x1138e
                                }
                            } else {
                                if n < 0x113c5 {
                                    (0x11390 <= n && n <= 0x113b5) || (0x113b7 <= n && n <= 0x113c0) || n == 0x113c2
                                } else {
                                    n == 0x113c5 || (0x113c7 <= n && n <= 0x113ca) || (0x113cc <= n && n <= 0x113cd) || n == 0x113d1
                                }
                            }
                        } else {
                            if n < 0x11480 {
                                if n < 0x11447 {
                                    n == 0x113d3 || (0x11400 <= n && n <= 0x11441) || (0x11443 <= n && n <= 0x11445)
                                } else {
                                    (0x11447 <= n && n <= 0x1144a) || (0x11450 <= n && n <= 0x11459) || (0x1145f <= n && n <= 0x11461)
                                }
                            } else {
                                if n < 0x114d0 {
                                    (0x11480 <= n && n <= 0x114c1) || (0x114c4 <= n && n <= 0x114c5) || n == 0x114c7
                                } else {
                                    (0x114d0 <= n && n <= 0x114d9) || (0x11580 <= n && n <= 0x115b5) || (0x115b8 <= n && n <= 0x115be) || (0x115d8 <= n && n <= 0x115dd)
                                }
                            }
                        }
                    } else {
                        if n < 0x118a0 {
                            if n < 0x116c0 {
                                if n < 0x11650 {
                                    (0x11600 <= n && n <= 0x1163e) || n == 0x11640 || n == 0x11644
                                } else {
                                    (0x11650 <= n && n <= 0x11659) || (0x11680 <= n && n <= 0x116b5) || n == 0x116b8
                                }
                            } else {
                                if n < 0x1171d {
                                    (0x116c0 <= n && n <= 0x116c9) || (0x116d0 <= n && n <= 0x116e3) || (0x11700 <= n && n <= 0x1171a)
                                } else {
                                    (0x1171d <= n && n <= 0x1172a) || (0x11730 <= n && n <= 0x1173b) || (0x11740 <= n && n <= 0x11746) || (0x11800 <= n && n <= 0x11838)
                                }
                            }
                        } else {
                            if n < 0x1193b {
                                if n < 0x1190c {
                                    (0x118a0 <= n && n <= 0x118f2) || (0x118ff <= n && n <= 0x11906) || n == 0x11909
                                } else {
                                    (0x1190c <= n && n <= 0x11913) || (0x11915 <= n && n <= 0x11916) || (0x11918 <= n && n <= 0x11935) || (0x11937 <= n && n <= 0x11938)
                                }
                            } else {
                                if n < 0x119a0 {
                                    (0x1193b <= n && n <= 0x1193c) || (0x1193f <= n && n <= 0x11942) || (0x11950 <= n && n <= 0x11959)
                                } else {
                                    (0x119a0 <= n && n <= 0x119a7) || (0x119aa <= n && n <= 0x119d7) || (0x119da <= n && n <= 0x119df) || n == 0x119e1
                                }
                            }
                        }
                    }
                }
            }
        } else {
            if n < 0x1d4c5 {
                if n < 0x16800 {
                    if n < 0x11d60 {
                        if n < 0x11c50 {
                            if n < 0x11b60 {
                                if n < 0x11a50 {
                                    (0x119e3 <= n && n <= 0x119e4) || (0x11a00 <= n && n <= 0x11a32) || (0x11a35 <= n && n <= 0x11a3e)
                                } else {
                                    (0x11a50 <= n && n <= 0x11a97) || n == 0x11a9d || (0x11ab0 <= n && n <= 0x11af8)
                                }
                            } else {
                                if n < 0x11c00 {
                                    (0x11b60 <= n && n <= 0x11b67) || (0x11bc0 <= n && n <= 0x11be0) || (0x11bf0 <= n && n <= 0x11bf9)
                                } else {
                                    (0x11c00 <= n && n <= 0x11c08) || (0x11c0a <= n && n <= 0x11c36) || (0x11c38 <= n && n <= 0x11c3e) || n == 0x11c40
                                }
                            }
                        } else {
                            if n < 0x11d0b {
                                if n < 0x11ca9 {
                                    (0x11c50 <= n && n <= 0x11c6c) || (0x11c72 <= n && n <= 0x11c8f) || (0x11c92 <= n && n <= 0x11ca7)
                                } else {
                                    (0x11ca9 <= n && n <= 0x11cb6) || (0x11d00 <= n && n <= 0x11d06) || (0x11d08 <= n && n <= 0x11d09)
                                }
                            } else {
                                if n < 0x11d3f {
                                    (0x11d0b <= n && n <= 0x11d36) || n == 0x11d3a || (0x11d3c <= n && n <= 0x11d3d)
                                } else {
                                    (0x11d3f <= n && n <= 0x11d41) || n == 0x11d43 || (0x11d46 <= n && n <= 0x11d47) || (0x11d50 <= n && n <= 0x11d59)
                                }
                            }
                        }
                    } else {
                        if n < 0x11f50 {
                            if n < 0x11da0 {
                                if n < 0x11d90 {
                                    (0x11d60 <= n && n <= 0x11d65) || (0x11d67 <= n && n <= 0x11d68) || (0x11d6a <= n && n <= 0x11d8e)
                                } else {
                                    (0x11d90 <= n && n <= 0x11d91) || (0x11d93 <= n && n <= 0x11d96) || n == 0x11d98
                                }
                            } else {
                                if n < 0x11ee0 {
                                    (0x11da0 <= n && n <= 0x11da9) || (0x11db0 <= n && n <= 0x11ddb) || (0x11de0 <= n && n <= 0x11de9)
                                } else {
                                    (0x11ee0 <= n && n <= 0x11ef6) || (0x11f00 <= n && n <= 0x11f10) || (0x11f12 <= n && n <= 0x11f3a) || (0x11f3e <= n && n <= 0x11f40)
                                }
                            }
                        } else {
                            if n < 0x12f90 {
                                if n < 0x12000 {
                                    (0x11f50 <= n && n <= 0x11f59) || n == 0x11fb0 || (0x11fc0 <= n && n <= 0x11fd4)
                                } else {
                                    (0x12000 <= n && n <= 0x12399) || (0x12400 <= n && n <= 0x1246e) || (0x12480 <= n && n <= 0x12543)
                                }
                            } else {
                                if n < 0x13460 {
                                    (0x12f90 <= n && n <= 0x12ff0) || (0x13000 <= n && n <= 0x1342f) || (0x13441 <= n && n <= 0x13446)
                                } else {
                                    (0x13460 <= n && n <= 0x143fa) || (0x14400 <= n && n <= 0x14646) || (0x16100 <= n && n <= 0x1612e) || (0x16130 <= n && n <= 0x16139)
                                }
                            }
                        }
                    }
                } else {
                    if n < 0x1aff0 {
                        if n < 0x16d70 {
                            if n < 0x16b00 {
                                if n < 0x16a70 {
                                    (0x16800 <= n && n <= 0x16a38) || (0x16a40 <= n && n <= 0x16a5e) || (0x16a60 <= n && n <= 0x16a69)
                                } else {
                                    (0x16a70 <= n && n <= 0x16abe) || (0x16ac0 <= n && n <= 0x16ac9) || (0x16ad0 <= n && n <= 0x16aed)
                                }
                            } else {
                                if n < 0x16b5b {
                                    (0x16b00 <= n && n <= 0x16b2f) || (0x16b40 <= n && n <= 0x16b43) || (0x16b50 <= n && n <= 0x16b59)
                                } else {
                                    (0x16b5b <= n && n <= 0x16b61) || (0x16b63 <= n && n <= 0x16b77) || (0x16b7d <= n && n <= 0x16b8f) || (0x16d40 <= n && n <= 0x16d6c)
                                }
                            }
                        } else {
                            if n < 0x16f8f {
                                if n < 0x16ebb {
                                    (0x16d70 <= n && n <= 0x16d79) || (0x16e40 <= n && n <= 0x16e96) || (0x16ea0 <= n && n <= 0x16eb8)
                                } else {
                                    (0x16ebb <= n && n <= 0x16ed3) || (0x16f00 <= n && n <= 0x16f4a) || (0x16f4f <= n && n <= 0x16f87)
                                }
                            } else {
                                if n < 0x16ff0 {
                                    (0x16f8f <= n && n <= 0x16f9f) || (0x16fe0 <= n && n <= 0x16fe1) || n == 0x16fe3
                                } else {
                                    (0x16ff0 <= n && n <= 0x16ff6) || (0x17000 <= n && n <= 0x18cd5) || (0x18cff <= n && n <= 0x18d1e) || (0x18d80 <= n && n <= 0x18df2)
                                }
                            }
                        }
                    } else {
                        if n < 0x1bc9e {
                            if n < 0x1b155 {
                                if n < 0x1b000 {
                                    (0x1aff0 <= n && n <= 0x1aff3) || (0x1aff5 <= n && n <= 0x1affb) || (0x1affd <= n && n <= 0x1affe)
                                } else {
                                    (0x1b000 <= n && n <= 0x1b122) || n == 0x1b132 || (0x1b150 <= n && n <= 0x1b152)
                                }
                            } else {
                                if n < 0x1bc00 {
                                    n == 0x1b155 || (0x1b164 <= n && n <= 0x1b167) || (0x1b170 <= n && n <= 0x1b2fb)
                                } else {
                                    (0x1bc00 <= n && n <= 0x1bc6a) || (0x1bc70 <= n && n <= 0x1bc7c) || (0x1bc80 <= n && n <= 0x1bc88) || (0x1bc90 <= n && n <= 0x1bc99)
                                }
                            }
                        } else {
                            if n < 0x1d49e {
                                if n < 0x1d2e0 {
                                    n == 0x1bc9e || (0x1ccf0 <= n && n <= 0x1ccf9) || (0x1d2c0 <= n && n <= 0x1d2d3)
                                } else {
                                    (0x1d2e0 <= n && n <= 0x1d2f3) || (0x1d360 <= n && n <= 0x1d378) || (0x1d400 <= n && n <= 0x1d454) || (0x1d456 <= n && n <= 0x1d49c)
                                }
                            } else {
                                if n < 0x1d4a9 {
                                    (0x1d49e <= n && n <= 0x1d49f) || n == 0x1d4a2 || (0x1d4a5 <= n && n <= 0x1d4a6)
                                } else {
                                    (0x1d4a9 <= n && n <= 0x1d4ac) || (0x1d4ae <= n && n <= 0x1d4b9) || n == 0x1d4bb || (0x1d4bd <= n && n <= 0x1d4c3)
                                }
                            }
                        }
                    }
                }
            } else {
                if n < 0x1e94b {
                    if n < 0x1e01b {
                        if n < 0x1d6fc {
                            if n < 0x1d540 {
                                if n < 0x1d516 {
                                    (0x1d4c5 <= n && n <= 0x1d505) || (0x1d507 <= n && n <= 0x1d50a) || (0x1d50d <= n && n <= 0x1d514)
                                } else {
                                    (0x1d516 <= n && n <= 0x1d51c) || (0x1d51e <= n && n <= 0x1d539) || (0x1d53b <= n && n <= 0x1d53e)
                                }
                            } else {
                                if n < 0x1d552 {
                                    (0x1d540 <= n && n <= 0x1d544) || n == 0x1d546 || (0x1d54a <= n && n <= 0x1d550)
                                } else {
                                    (0x1d552 <= n && n <= 0x1d6a5) || (0x1d6a8 <= n && n <= 0x1d6c0) || (0x1d6c2 <= n && n <= 0x1d6da) || (0x1d6dc <= n && n <= 0x1d6fa)
                                }
                            }
                        } else {
                            if n < 0x1d7aa {
                                if n < 0x1d750 {
                                    (0x1d6fc <= n && n <= 0x1d714) || (0x1d716 <= n && n <= 0x1d734) || (0x1d736 <= n && n <= 0x1d74e)
                                } else {
                                    (0x1d750 <= n && n <= 0x1d76e) || (0x1d770 <= n && n <= 0x1d788) || (0x1d78a <= n && n <= 0x1d7a8)
                                }
                            } else {
                                if n < 0x1df00 {
                                    (0x1d7aa <= n && n <= 0x1d7c2) || (0x1d7c4 <= n && n <= 0x1d7cb) || (0x1d7ce <= n && n <= 0x1d7ff)
                                } else {
                                    (0x1df00 <= n && n <= 0x1df1e) || (0x1df25 <= n && n <= 0x1df2a) || (0x1e000 <= n && n <= 0x1e006) || (0x1e008 <= n && n <= 0x1e018)
                                }
                            }
                        }
                    } else {
                        if n < 0x1e4f0 {
                            if n < 0x1e137 {
                                if n < 0x1e030 {
                                    (0x1e01b <= n && n <= 0x1e021) || (0x1e023 <= n && n <= 0x1e024) || (0x1e026 <= n && n <= 0x1e02a)
                                } else {
                                    (0x1e030 <= n && n <= 0x1e06d) || n == 0x1e08f || (0x1e100 <= n && n <= 0x1e12c)
                                }
                            } else {
                                if n < 0x1e290 {
                                    (0x1e137 <= n && n <= 0x1e13d) || (0x1e140 <= n && n <= 0x1e149) || n == 0x1e14e
                                } else {
                                    (0x1e290 <= n && n <= 0x1e2ad) || (0x1e2c0 <= n && n <= 0x1e2eb) || (0x1e2f0 <= n && n <= 0x1e2f9) || (0x1e4d0 <= n && n <= 0x1e4eb)
                                }
                            }
                        } else {
                            if n < 0x1e7e8 {
                                if n < 0x1e6c0 {
                                    (0x1e4f0 <= n && n <= 0x1e4f9) || (0x1e5d0 <= n && n <= 0x1e5ed) || (0x1e5f0 <= n && n <= 0x1e5fa)
                                } else {
                                    (0x1e6c0 <= n && n <= 0x1e6de) || (0x1e6e0 <= n && n <= 0x1e6f5) || (0x1e6fe <= n && n <= 0x1e6ff) || (0x1e7e0 <= n && n <= 0x1e7e6)
                                }
                            } else {
                                if n < 0x1e800 {
                                    (0x1e7e8 <= n && n <= 0x1e7eb) || (0x1e7ed <= n && n <= 0x1e7ee) || (0x1e7f0 <= n && n <= 0x1e7fe)
                                } else {
                                    (0x1e800 <= n && n <= 0x1e8c4) || (0x1e8c7 <= n && n <= 0x1e8cf) || (0x1e900 <= n && n <= 0x1e943) || n == 0x1e947
                                }
                            }
                        }
                    }
                } else {
                    if n < 0x1ee5d {
                        if n < 0x1ee34 {
                            if n < 0x1ed2f {
                                if n < 0x1ecad {
                                    n == 0x1e94b || (0x1e950 <= n && n <= 0x1e959) || (0x1ec71 <= n && n <= 0x1ecab)
                                } else {
                                    (0x1ecad <= n && n <= 0x1ecaf) || (0x1ecb1 <= n && n <= 0x1ecb4) || (0x1ed01 <= n && n <= 0x1ed2d)
                                }
                            } else {
                                if n < 0x1ee21 {
                                    (0x1ed2f <= n && n <= 0x1ed3d) || (0x1ee00 <= n && n <= 0x1ee03) || (0x1ee05 <= n && n <= 0x1ee1f)
                                } else {
                                    (0x1ee21 <= n && n <= 0x1ee22) || n == 0x1ee24 || n == 0x1ee27 || (0x1ee29 <= n && n <= 0x1ee32)
                                }
                            }
                        } else {
                            if n < 0x1ee4b {
                                if n < 0x1ee42 {
                                    (0x1ee34 <= n && n <= 0x1ee37) || n == 0x1ee39 || n == 0x1ee3b
                                } else {
                                    n == 0x1ee42 || n == 0x1ee47 || n == 0x1ee49
                                }
                            } else {
                                if n < 0x1ee54 {
                                    n == 0x1ee4b || (0x1ee4d <= n && n <= 0x1ee4f) || (0x1ee51 <= n && n <= 0x1ee52)
                                } else {
                                    n == 0x1ee54 || n == 0x1ee57 || n == 0x1ee59 || n == 0x1ee5b
                                }
                            }
                        }
                    } else {
                        if n < 0x1eeab {
                            if n < 0x1ee74 {
                                if n < 0x1ee64 {
                                    n == 0x1ee5d || n == 0x1ee5f || (0x1ee61 <= n && n <= 0x1ee62)
                                } else {
                                    n == 0x1ee64 || (0x1ee67 <= n && n <= 0x1ee6a) || (0x1ee6c <= n && n <= 0x1ee72)
                                }
                            } else {
                                if n < 0x1ee80 {
                                    (0x1ee74 <= n && n <= 0x1ee77) || (0x1ee79 <= n && n <= 0x1ee7c) || n == 0x1ee7e
                                } else {
                                    (0x1ee80 <= n && n <= 0x1ee89) || (0x1ee8b <= n && n <= 0x1ee9b) || (0x1eea1 <= n && n <= 0x1eea3) || (0x1eea5 <= n && n <= 0x1eea9)
                                }
                            }
                        } else {
                            if n < 0x2a700 {
                                if n < 0x1f150 {
                                    (0x1eeab <= n && n <= 0x1eebb) || (0x1f100 <= n && n <= 0x1f10c) || (0x1f130 <= n && n <= 0x1f149)
                                } else {
                                    (0x1f150 <= n && n <= 0x1f169) || (0x1f170 <= n && n <= 0x1f189) || (0x1fbf0 <= n && n <= 0x1fbf9) || (0x20000 <= n && n <= 0x2a6df)
                                }
                            } else {
                                if n < 0x2ebf0 {
                                    (0x2a700 <= n && n <= 0x2b81d) || (0x2b820 <= n && n <= 0x2cead) || (0x2ceb0 <= n && n <= 0x2ebe0)
                                } else {
                                    (0x2ebf0 <= n && n <= 0x2ee5d) || (0x2f800 <= n && n <= 0x2fa1d) || (0x30000 <= n && n <= 0x3134a) || (0x31350 <= n && n <= 0x33479)
                                }
                            }
                        }
                    }
                }
            }
        }
    }
}

/// Calls `str::to_lowercase`; the contract only names its result.
#[verifier::external_body]
pub(crate) fn para_minusculas(s: &str) -> (r: String)
    ensures
        r@ == minusculas(s@),
{
    s.to_lowercase()
}

/// Calls `String::push`, which appends one character.
#[verifier::external_body]
pub(crate) fn empurra(s: &mut String, c: char)
    ensures
        final(s)@ == old(s)@.push(c),
{
    s.push(c)
}

/// The decimal digit character for `d` (`0 <= d < 10`).
pub open spec fn digito(d: nat) -> char {
    ((48 + d) as u8) as char
}

/// The decimal representation of `n`, without leading zeros.
pub open spec fn decimal(n: nat) -> Seq<char>
    decreases n,
{
    if n < 10 {
        seq![digito(n)]
    } else {
        decimal(n / 10).push(digito(n % 10))
    }
}

/// Appends the decimal representation of `n` to `out`.
pub fn escreve_decimal(out: &mut String, n: u64)
    ensures
        final(out)@ == old(out)@ + decimal(n as nat),
    decreases n,
{
    if n >= 10 {
        escreve_decimal(out, n / 10);
    }
    let d: u8 = (n % 10) as u8;
    let c: char = (48u8 + d) as char;
    empurra(out, c);
    proof {
        assert(old(out)@ + decimal(n as nat) =~= old(out)@ + (if n >= 10 { decimal((n / 10) as nat) } else { Seq::empty() }).push(c));
    }
}

/// On ASCII characters, exactly the decimal digits and the Latin letters
/// are alphanumeric.
pub proof fn lemma_alfanumerico_ascii(c: char)
    requires
        (c as u32) < 0x80,
    ensures
        alfanumerico(c) <==> ('0' <= c <= '9' || 'A' <= c <= 'Z' || 'a' <= c <= 'z'),
{
}

/// No character of the General Punctuation block (U+2000 to U+206F: spaces,
/// dashes, typographic quotes, ellipsis, ...) is alphanumeric, nor are the
/// punctuation and symbols of Latin-1 (inverted marks, guillemets,
/// section and pilcrow signs, the multiplication and division signs, ...).
pub proof fn lemma_pontuacao_nao_e_alfanumerica(c: char)
    requires
        0x2000 <= (c as u32) <= 0x206f
            || 0xa0 <= (c as u32) <= 0xa9
            || 0xab <= (c as u32) <= 0xb1
            || c as u32 == 0xb4
            || 0xb6 <= (c as u32) <= 0xb8
            || c as u32 == 0xbb
            || c as u32 == 0xbf
            || c as u32 == 0xd7
            || c as u32 == 0xf7,
    ensures
        !alfanumerico(c),
{
}

/// The number that a string of decimal digits spells.
pub open spec fn valor_decimal(s: Seq<char>) -> int
    decreases s.len(),
{
    if s.len() == 0 { 0 } else { valor_decimal(s.drop_last()) * 10 + (s.last() as int - 48) }
}

/// The decimal representation of `n` is made of the digits `0` to `9` only,
/// spells `n`, and has no leading zero (so different numbers have different
/// representations).
pub proof fn lemma_decimal_le_de_volta(n: nat)
    ensures
        decimal(n).len() >= 1,
        forall|i: int| 0 <= i < decimal(n).len() ==> '0' <= #[trigger] decimal(n)[i] <= '9',
        valor_decimal(decimal(n)) == n,
        n > 0 ==> decimal(n)[0] != '0',
    decreases n,
{
    let d = n % 10;
    assert(digito(d) as int == 48 + d);
    if n >= 10 {
        lemma_decimal_le_de_volta(n / 10);
        let anterior = decimal(n / 10);
        let s = decimal(n);
        assert(s == anterior.push(digito(d)));
        assert(s.drop_last() =~= anterior);
        assert forall|i: int| 0 <= i < s.len() implies '0' <= #[trigger] s[i] <= '9' by {
            if i < anterior.len() {
                assert(s[i] == anterior[i]);
            }
        }
        assert(s[0] == anterior[0]);
        assert(s.last() == digito(d));
        assert(valor_decimal(s) == valor_decimal(anterior) * 10 + (s.last() as int - 48));
        assert(n == (n / 10) * 10 + d);
    } else {
        let s = decimal(n);
        assert(s == seq![digito(n)]);
        assert(s.drop_last() =~= Seq::<char>::empty());
        assert(valor_decimal(Seq::<char>::empty()) == 0);
        assert(valor_decimal(s) == valor_decimal(s.drop_last()) * 10 + (s.last() as int - 48));
    }
}

/// Different numbers are written differently.
pub proof fn lemma_decimal_injetivo(a: nat, b: nat)
    requires
        decimal(a) == decimal(b),
    ensures
        a == b,
{
    lemma_decimal_le_de_volta(a);
    lemma_decimal_le_de_volta(b);
}

} // verus!
