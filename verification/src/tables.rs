//! Unicode identifier tables: the non-ASCII code points with the properties
//! `ID_Start` and `ID_Continue` of Unicode 14.

use vstd::prelude::*;

verus! {

/// The non-ASCII code points that can start an identifier (`ID_Start`).
pub closed spec fn unicode_id_start(c: u32) -> bool {
    if c < 0x48a {
        start_00aa(c)
    } else if c < 0x7fa {
        start_048a(c)
    } else if c < 0x9b6 {
        start_07fa(c)
    } else if c < 0xaaa {
        start_09b6(c)
    } else if c < 0xb92 {
        start_0aaa(c)
    } else if c < 0xcaa {
        start_0b92(c)
    } else if c < 0xe32 {
        start_0caa(c)
    } else if c < 0x105a {
        start_0e32(c)
    } else if c < 0x12c0 {
        start_105a(c)
    } else if c < 0x17d7 {
        start_12c0(c)
    } else if c < 0x1c4d {
        start_17d7(c)
    } else if c < 0x1fb6 {
        start_1c4d(c)
    } else if c < 0x212a {
        start_1fb6(c)
    } else if c < 0x2dd0 {
        start_212a(c)
    } else if c < 0xa640 {
        start_2dd0(c)
    } else if c < 0xa960 {
        start_a640(c)
    } else if c < 0xab01 {
        start_a960(c)
    } else if c < 0xfb40 {
        start_ab01(c)
    } else if c < 0x1003f {
        start_fb40(c)
    } else if c < 0x1058c {
        start_1003f(c)
    } else if c < 0x108e0 {
        start_1058c(c)
    } else if c < 0x10cc0 {
        start_108e0(c)
    } else if c < 0x11183 {
        start_10cc0(c)
    } else if c < 0x1135d {
        start_11183(c)
    } else if c < 0x11915 {
        start_1135d(c)
    } else if c < 0x11d08 {
        start_11915(c)
    } else if c < 0x16b40 {
        start_11d08(c)
    } else if c < 0x1bc70 {
        start_16b40(c)
    } else if c < 0x1d54a {
        start_1bc70(c)
    } else if c < 0x1e7e8 {
        start_1d54a(c)
    } else if c < 0x1ee51 {
        start_1e7e8(c)
    } else if c < 0x2a700 {
        start_1ee51(c)
    } else {
        start_2a700(c)
    }
}

/// The non-ASCII code points that can continue an identifier but not start
/// one (`ID_Continue` without `ID_Start`, and the two zero-width joiners).
pub closed spec fn unicode_id_part_only(c: u32) -> bool {
    if c < 0x7c0 {
        part_00b7(c)
    } else if c < 0x9cb {
        part_07c0(c)
    } else if c < 0xafa {
        part_09cb(c)
    } else if c < 0xc55 {
        part_0afa(c)
    } else if c < 0xdca {
        part_0c55(c)
    } else if c < 0xf71 {
        part_0dca(c)
    } else if c < 0x17b4 {
        part_0f71(c)
    } else if c < 0x1b6b {
        part_17b4(c)
    } else if c < 0x2cef {
        part_1b6b(c)
    } else if c < 0xa926 {
        part_2cef(c)
    } else if c < 0xabec {
        part_a926(c)
    } else if c < 0x10d30 {
        part_abec(c)
    } else if c < 0x111ce {
        part_10d30(c)
    } else if c < 0x115b8 {
        part_111ce(c)
    } else if c < 0x11a33 {
        part_115b8(c)
    } else if c < 0x11ef3 {
        part_11a33(c)
    } else if c < 0x1d7ce {
        part_11ef3(c)
    } else if c < 0xe0100 {
        part_1d7ce(c)
    } else {
        part_e0100(c)
    }
}

/// No whitespace character above U+007F is in the tables: whitespace can
/// neither start nor continue an identifier.
pub proof fn lemma_tables_hold_no_whitespace(c: u32)
    requires
        c == 0x85 || c == 0xa0 || c == 0x1680 || c == 0x180e || (0x2000 <= c && c <= 0x200b) || c
            == 0x2028 || c == 0x2029 || c == 0x202f || c == 0x205f || c == 0x3000 || c == 0xfeff,
    ensures
        !unicode_id_start(c),
        !unicode_id_part_only(c),
{
}

/// Looks `c` up among the code points that can start an identifier.
pub fn lookup_id_start(c: u32) -> (r: bool)
    ensures
        r == unicode_id_start(c),
{
    if c < 0xa960 {
        if c < 0x105a {
            if c < 0xaaa {
                if c < 0x7fa {
                    if c < 0x48a {
                        start_00aa(c)
                    } else {
                        start_048a(c)
                    }
                } else {
                    if c < 0x9b6 {
                        start_07fa(c)
                    } else {
                        start_09b6(c)
                    }
                }
            } else {
                if c < 0xcaa {
                    if c < 0xb92 {
                        start_0aaa(c)
                    } else {
                        start_0b92(c)
                    }
                } else {
                    if c < 0xe32 {
                        start_0caa(c)
                    } else {
                        start_0e32(c)
                    }
                }
            }
        } else {
            if c < 0x1fb6 {
                if c < 0x17d7 {
                    if c < 0x12c0 {
                        start_105a(c)
                    } else {
                        start_12c0(c)
                    }
                } else {
                    if c < 0x1c4d {
                        start_17d7(c)
                    } else {
                        start_1c4d(c)
                    }
                }
            } else {
                if c < 0x2dd0 {
                    if c < 0x212a {
                        start_1fb6(c)
                    } else {
                        start_212a(c)
                    }
                } else {
                    if c < 0xa640 {
                        start_2dd0(c)
                    } else {
                        start_a640(c)
                    }
                }
            }
        }
    } else {
        if c < 0x1135d {
            if c < 0x1058c {
                if c < 0xfb40 {
                    if c < 0xab01 {
                        start_a960(c)
                    } else {
                        start_ab01(c)
                    }
                } else {
                    if c < 0x1003f {
                        start_fb40(c)
                    } else {
                        start_1003f(c)
                    }
                }
            } else {
                if c < 0x10cc0 {
                    if c < 0x108e0 {
                        start_1058c(c)
                    } else {
                        start_108e0(c)
                    }
                } else {
                    if c < 0x11183 {
                        start_10cc0(c)
                    } else {
                        start_11183(c)
                    }
                }
            }
        } else {
            if c < 0x1bc70 {
                if c < 0x11d08 {
                    if c < 0x11915 {
                        start_1135d(c)
                    } else {
                        start_11915(c)
                    }
                } else {
                    if c < 0x16b40 {
                        start_11d08(c)
                    } else {
                        start_16b40(c)
                    }
                }
            } else {
                if c < 0x1e7e8 {
                    if c < 0x1d54a {
                        start_1bc70(c)
                    } else {
                        start_1d54a(c)
                    }
                } else {
                    if c < 0x1ee51 {
                        start_1e7e8(c)
                    } else {
                        if c < 0x2a700 {
                            start_1ee51(c)
                        } else {
                            start_2a700(c)
                        }
                    }
                }
            }
        }
    }
}

/// Looks `c` up among the code points that can continue an identifier but
/// not start one.
pub fn lookup_id_part_only(c: u32) -> (r: bool)
    ensures
        r == unicode_id_part_only(c),
{
    if c < 0x2cef {
        if c < 0xc55 {
            if c < 0x9cb {
                if c < 0x7c0 {
                    part_00b7(c)
                } else {
                    part_07c0(c)
                }
            } else {
                if c < 0xafa {
                    part_09cb(c)
                } else {
                    part_0afa(c)
                }
            }
        } else {
            if c < 0xf71 {
                if c < 0xdca {
                    part_0c55(c)
                } else {
                    part_0dca(c)
                }
            } else {
                if c < 0x17b4 {
                    part_0f71(c)
                } else {
                    if c < 0x1b6b {
                        part_17b4(c)
                    } else {
                        part_1b6b(c)
                    }
                }
            }
        }
    } else {
        if c < 0x115b8 {
            if c < 0xabec {
                if c < 0xa926 {
                    part_2cef(c)
                } else {
                    part_a926(c)
                }
            } else {
                if c < 0x10d30 {
                    part_abec(c)
                } else {
                    if c < 0x111ce {
                        part_10d30(c)
                    } else {
                        part_111ce(c)
                    }
                }
            }
        } else {
            if c < 0x11ef3 {
                if c < 0x11a33 {
                    part_115b8(c)
                } else {
                    part_11a33(c)
                }
            } else {
                if c < 0x1d7ce {
                    part_11ef3(c)
                } else {
                    if c < 0xe0100 {
                        part_1d7ce(c)
                    } else {
                        part_e0100(c)
                    }
                }
            }
        }
    }
}

/// Code points that can start an identifier, from U+00AA to U+0481.
#[verifier::allow_in_spec]
fn start_00aa(c: u32) -> bool
    returns
        (c == 0xaa || c == 0xb5 || c == 0xba || (0xc0 <= c && c <= 0xd6)
        || (0xd8 <= c && c <= 0xf6) || (0xf8 <= c && c <= 0x2c1) || (0x2c6 <= c && c <= 0x2d1)
        || (0x2e0 <= c && c <= 0x2e4) || c == 0x2ec || c == 0x2ee || (0x370 <= c && c <= 0x374)
        || (0x376 <= c && c <= 0x377) || (0x37a <= c && c <= 0x37d) || c == 0x37f || c == 0x386
        || (0x388 <= c && c <= 0x38a) || c == 0x38c || (0x38e <= c && c <= 0x3a1)
        || (0x3a3 <= c && c <= 0x3f5) || (0x3f7 <= c && c <= 0x481)),
{
    if c < 0x370 {
        if c < 0xf8 {
            if c < 0xba {
                c == 0xaa || c == 0xb5
            } else {
                c == 0xba || (0xc0 <= c && c <= 0xd6) || (0xd8 <= c && c <= 0xf6)
            }
        } else {
            if c < 0x2e0 {
                (0xf8 <= c && c <= 0x2c1) || (0x2c6 <= c && c <= 0x2d1)
            } else {
                (0x2e0 <= c && c <= 0x2e4) || c == 0x2ec || c == 0x2ee
            }
        }
    } else {
        if c < 0x388 {
            if c < 0x37a {
                (0x370 <= c && c <= 0x374) || (0x376 <= c && c <= 0x377)
            } else {
                (0x37a <= c && c <= 0x37d) || c == 0x37f || c == 0x386
            }
        } else {
            if c < 0x38e {
                (0x388 <= c && c <= 0x38a) || c == 0x38c
            } else {
                (0x38e <= c && c <= 0x3a1) || (0x3a3 <= c && c <= 0x3f5)
                    || (0x3f7 <= c && c <= 0x481)
            }
        }
    }
}

/// Code points that can start an identifier, from U+048A to U+07F5.
#[verifier::allow_in_spec]
fn start_048a(c: u32) -> bool
    returns
        ((0x48a <= c && c <= 0x52f) || (0x531 <= c && c <= 0x556) || c == 0x559
        || (0x560 <= c && c <= 0x588) || (0x5d0 <= c && c <= 0x5ea)
        || (0x5ef <= c && c <= 0x5f2) || (0x620 <= c && c <= 0x64a)
        || (0x66e <= c && c <= 0x66f) || (0x671 <= c && c <= 0x6d3) || c == 0x6d5
        || (0x6e5 <= c && c <= 0x6e6) || (0x6ee <= c && c <= 0x6ef)
        || (0x6fa <= c && c <= 0x6fc) || c == 0x6ff || c == 0x710 || (0x712 <= c && c <= 0x72f)
        || (0x74d <= c && c <= 0x7a5) || c == 0x7b1 || (0x7ca <= c && c <= 0x7ea)
        || (0x7f4 <= c && c <= 0x7f5)),
{
    if c < 0x6e5 {
        if c < 0x5ef {
            if c < 0x559 {
                (0x48a <= c && c <= 0x52f) || (0x531 <= c && c <= 0x556)
            } else {
                c == 0x559 || (0x560 <= c && c <= 0x588) || (0x5d0 <= c && c <= 0x5ea)
            }
        } else {
            if c < 0x66e {
                (0x5ef <= c && c <= 0x5f2) || (0x620 <= c && c <= 0x64a)
            } else {
                (0x66e <= c && c <= 0x66f) || (0x671 <= c && c <= 0x6d3) || c == 0x6d5
            }
        }
    } else {
        if c < 0x712 {
            if c < 0x6fa {
                (0x6e5 <= c && c <= 0x6e6) || (0x6ee <= c && c <= 0x6ef)
            } else {
                (0x6fa <= c && c <= 0x6fc) || c == 0x6ff || c == 0x710
            }
        } else {
            if c < 0x7b1 {
                (0x712 <= c && c <= 0x72f) || (0x74d <= c && c <= 0x7a5)
            } else {
                c == 0x7b1 || (0x7ca <= c && c <= 0x7ea) || (0x7f4 <= c && c <= 0x7f5)
            }
        }
    }
}

/// Code points that can start an identifier, from U+07FA to U+09B2.
#[verifier::allow_in_spec]
fn start_07fa(c: u32) -> bool
    returns
        (c == 0x7fa || (0x800 <= c && c <= 0x815) || c == 0x81a || c == 0x824 || c == 0x828
        || (0x840 <= c && c <= 0x858) || (0x860 <= c && c <= 0x86a)
        || (0x870 <= c && c <= 0x887) || (0x889 <= c && c <= 0x88e)
        || (0x8a0 <= c && c <= 0x8c9) || (0x904 <= c && c <= 0x939) || c == 0x93d || c == 0x950
        || (0x958 <= c && c <= 0x961) || (0x971 <= c && c <= 0x980)
        || (0x985 <= c && c <= 0x98c) || (0x98f <= c && c <= 0x990)
        || (0x993 <= c && c <= 0x9a8) || (0x9aa <= c && c <= 0x9b0) || c == 0x9b2),
{
    if c < 0x904 {
        if c < 0x840 {
            if c < 0x81a {
                c == 0x7fa || (0x800 <= c && c <= 0x815)
            } else {
                c == 0x81a || c == 0x824 || c == 0x828
            }
        } else {
            if c < 0x870 {
                (0x840 <= c && c <= 0x858) || (0x860 <= c && c <= 0x86a)
            } else {
                (0x870 <= c && c <= 0x887) || (0x889 <= c && c <= 0x88e)
                    || (0x8a0 <= c && c <= 0x8c9)
            }
        }
    } else {
        if c < 0x985 {
            if c < 0x950 {
                (0x904 <= c && c <= 0x939) || c == 0x93d
            } else {
                c == 0x950 || (0x958 <= c && c <= 0x961) || (0x971 <= c && c <= 0x980)
            }
        } else {
            if c < 0x993 {
                (0x985 <= c && c <= 0x98c) || (0x98f <= c && c <= 0x990)
            } else {
                (0x993 <= c && c <= 0x9a8) || (0x9aa <= c && c <= 0x9b0) || c == 0x9b2
            }
        }
    }
}

/// Code points that can start an identifier, from U+09B6 to U+0AA8.
#[verifier::allow_in_spec]
fn start_09b6(c: u32) -> bool
    returns
        ((0x9b6 <= c && c <= 0x9b9) || c == 0x9bd || c == 0x9ce || (0x9dc <= c && c <= 0x9dd)
        || (0x9df <= c && c <= 0x9e1) || (0x9f0 <= c && c <= 0x9f1) || c == 0x9fc
        || (0xa05 <= c && c <= 0xa0a) || (0xa0f <= c && c <= 0xa10)
        || (0xa13 <= c && c <= 0xa28) || (0xa2a <= c && c <= 0xa30)
        || (0xa32 <= c && c <= 0xa33) || (0xa35 <= c && c <= 0xa36)
        || (0xa38 <= c && c <= 0xa39) || (0xa59 <= c && c <= 0xa5c) || c == 0xa5e
        || (0xa72 <= c && c <= 0xa74) || (0xa85 <= c && c <= 0xa8d)
        || (0xa8f <= c && c <= 0xa91) || (0xa93 <= c && c <= 0xaa8)),
{
    if c < 0xa2a {
        if c < 0x9f0 {
            if c < 0x9ce {
                (0x9b6 <= c && c <= 0x9b9) || c == 0x9bd
            } else {
                c == 0x9ce || (0x9dc <= c && c <= 0x9dd) || (0x9df <= c && c <= 0x9e1)
            }
        } else {
            if c < 0xa05 {
                (0x9f0 <= c && c <= 0x9f1) || c == 0x9fc
            } else {
                (0xa05 <= c && c <= 0xa0a) || (0xa0f <= c && c <= 0xa10)
                    || (0xa13 <= c && c <= 0xa28)
            }
        }
    } else {
        if c < 0xa5e {
            if c < 0xa35 {
                (0xa2a <= c && c <= 0xa30) || (0xa32 <= c && c <= 0xa33)
            } else {
                (0xa35 <= c && c <= 0xa36) || (0xa38 <= c && c <= 0xa39)
                    || (0xa59 <= c && c <= 0xa5c)
            }
        } else {
            if c < 0xa85 {
                c == 0xa5e || (0xa72 <= c && c <= 0xa74)
            } else {
                (0xa85 <= c && c <= 0xa8d) || (0xa8f <= c && c <= 0xa91)
                    || (0xa93 <= c && c <= 0xaa8)
            }
        }
    }
}

/// Code points that can start an identifier, from U+0AAA to U+0B90.
#[verifier::allow_in_spec]
fn start_0aaa(c: u32) -> bool
    returns
        ((0xaaa <= c && c <= 0xab0) || (0xab2 <= c && c <= 0xab3) || (0xab5 <= c && c <= 0xab9)
        || c == 0xabd || c == 0xad0 || (0xae0 <= c && c <= 0xae1) || c == 0xaf9
        || (0xb05 <= c && c <= 0xb0c) || (0xb0f <= c && c <= 0xb10)
        || (0xb13 <= c && c <= 0xb28) || (0xb2a <= c && c <= 0xb30)
        || (0xb32 <= c && c <= 0xb33) || (0xb35 <= c && c <= 0xb39) || c == 0xb3d
        || (0xb5c <= c && c <= 0xb5d) || (0xb5f <= c && c <= 0xb61) || c == 0xb71 || c == 0xb83
        || (0xb85 <= c && c <= 0xb8a) || (0xb8e <= c && c <= 0xb90)),
{
    if c < 0xb2a {
        if c < 0xae0 {
            if c < 0xab5 {
                (0xaaa <= c && c <= 0xab0) || (0xab2 <= c && c <= 0xab3)
            } else {
                (0xab5 <= c && c <= 0xab9) || c == 0xabd || c == 0xad0
            }
        } else {
            if c < 0xb05 {
                (0xae0 <= c && c <= 0xae1) || c == 0xaf9
            } else {
                (0xb05 <= c && c <= 0xb0c) || (0xb0f <= c && c <= 0xb10)
                    || (0xb13 <= c && c <= 0xb28)
            }
        }
    } else {
        if c < 0xb5f {
            if c < 0xb35 {
                (0xb2a <= c && c <= 0xb30) || (0xb32 <= c && c <= 0xb33)
            } else {
                (0xb35 <= c && c <= 0xb39) || c == 0xb3d || (0xb5c <= c && c <= 0xb5d)
            }
        } else {
            if c < 0xb83 {
                (0xb5f <= c && c <= 0xb61) || c == 0xb71
            } else {
                c == 0xb83 || (0xb85 <= c && c <= 0xb8a) || (0xb8e <= c && c <= 0xb90)
            }
        }
    }
}

/// Code points that can start an identifier, from U+0B92 to U+0CA8.
#[verifier::allow_in_spec]
fn start_0b92(c: u32) -> bool
    returns
        ((0xb92 <= c && c <= 0xb95) || (0xb99 <= c && c <= 0xb9a) || c == 0xb9c
        || (0xb9e <= c && c <= 0xb9f) || (0xba3 <= c && c <= 0xba4)
        || (0xba8 <= c && c <= 0xbaa) || (0xbae <= c && c <= 0xbb9) || c == 0xbd0
        || (0xc05 <= c && c <= 0xc0c) || (0xc0e <= c && c <= 0xc10)
        || (0xc12 <= c && c <= 0xc28) || (0xc2a <= c && c <= 0xc39) || c == 0xc3d
        || (0xc58 <= c && c <= 0xc5a) || c == 0xc5d || (0xc60 <= c && c <= 0xc61) || c == 0xc80
        || (0xc85 <= c && c <= 0xc8c) || (0xc8e <= c && c <= 0xc90)
        || (0xc92 <= c && c <= 0xca8)),
{
    if c < 0xc12 {
        if c < 0xba8 {
            if c < 0xb9c {
                (0xb92 <= c && c <= 0xb95) || (0xb99 <= c && c <= 0xb9a)
            } else {
                c == 0xb9c || (0xb9e <= c && c <= 0xb9f) || (0xba3 <= c && c <= 0xba4)
            }
        } else {
            if c < 0xbd0 {
                (0xba8 <= c && c <= 0xbaa) || (0xbae <= c && c <= 0xbb9)
            } else {
                c == 0xbd0 || (0xc05 <= c && c <= 0xc0c) || (0xc0e <= c && c <= 0xc10)
            }
        }
    } else {
        if c < 0xc60 {
            if c < 0xc3d {
                (0xc12 <= c && c <= 0xc28) || (0xc2a <= c && c <= 0xc39)
            } else {
                c == 0xc3d || (0xc58 <= c && c <= 0xc5a) || c == 0xc5d
            }
        } else {
            if c < 0xc85 {
                (0xc60 <= c && c <= 0xc61) || c == 0xc80
            } else {
                (0xc85 <= c && c <= 0xc8c) || (0xc8e <= c && c <= 0xc90)
                    || (0xc92 <= c && c <= 0xca8)
            }
        }
    }
}

/// Code points that can start an identifier, from U+0CAA to U+0E30.
#[verifier::allow_in_spec]
fn start_0caa(c: u32) -> bool
    returns
        ((0xcaa <= c && c <= 0xcb3) || (0xcb5 <= c && c <= 0xcb9) || c == 0xcbd
        || (0xcdd <= c && c <= 0xcde) || (0xce0 <= c && c <= 0xce1)
        || (0xcf1 <= c && c <= 0xcf2) || (0xd04 <= c && c <= 0xd0c)
        || (0xd0e <= c && c <= 0xd10) || (0xd12 <= c && c <= 0xd3a) || c == 0xd3d || c == 0xd4e
        || (0xd54 <= c && c <= 0xd56) || (0xd5f <= c && c <= 0xd61)
        || (0xd7a <= c && c <= 0xd7f) || (0xd85 <= c && c <= 0xd96)
        || (0xd9a <= c && c <= 0xdb1) || (0xdb3 <= c && c <= 0xdbb) || c == 0xdbd
        || (0xdc0 <= c && c <= 0xdc6) || (0xe01 <= c && c <= 0xe30)),
{
    if c < 0xd4e {
        if c < 0xcf1 {
            if c < 0xcbd {
                (0xcaa <= c && c <= 0xcb3) || (0xcb5 <= c && c <= 0xcb9)
            } else {
                c == 0xcbd || (0xcdd <= c && c <= 0xcde) || (0xce0 <= c && c <= 0xce1)
            }
        } else {
            if c < 0xd0e {
                (0xcf1 <= c && c <= 0xcf2) || (0xd04 <= c && c <= 0xd0c)
            } else {
                (0xd0e <= c && c <= 0xd10) || (0xd12 <= c && c <= 0xd3a) || c == 0xd3d
            }
        }
    } else {
        if c < 0xd9a {
            if c < 0xd5f {
                c == 0xd4e || (0xd54 <= c && c <= 0xd56)
            } else {
                (0xd5f <= c && c <= 0xd61) || (0xd7a <= c && c <= 0xd7f)
                    || (0xd85 <= c && c <= 0xd96)
            }
        } else {
            if c < 0xdbd {
                (0xd9a <= c && c <= 0xdb1) || (0xdb3 <= c && c <= 0xdbb)
            } else {
                c == 0xdbd || (0xdc0 <= c && c <= 0xdc6) || (0xe01 <= c && c <= 0xe30)
            }
        }
    }
}

/// Code points that can start an identifier, from U+0E32 to U+1055.
#[verifier::allow_in_spec]
fn start_0e32(c: u32) -> bool
    returns
        ((0xe32 <= c && c <= 0xe33) || (0xe40 <= c && c <= 0xe46) || (0xe81 <= c && c <= 0xe82)
        || c == 0xe84 || (0xe86 <= c && c <= 0xe8a) || (0xe8c <= c && c <= 0xea3) || c == 0xea5
        || (0xea7 <= c && c <= 0xeb0) || (0xeb2 <= c && c <= 0xeb3) || c == 0xebd
        || (0xec0 <= c && c <= 0xec4) || c == 0xec6 || (0xedc <= c && c <= 0xedf) || c == 0xf00
        || (0xf40 <= c && c <= 0xf47) || (0xf49 <= c && c <= 0xf6c)
        || (0xf88 <= c && c <= 0xf8c) || (0x1000 <= c && c <= 0x102a) || c == 0x103f
        || (0x1050 <= c && c <= 0x1055)),
{
    if c < 0xec0 {
        if c < 0xe8c {
            if c < 0xe81 {
                (0xe32 <= c && c <= 0xe33) || (0xe40 <= c && c <= 0xe46)
            } else {
                (0xe81 <= c && c <= 0xe82) || c == 0xe84 || (0xe86 <= c && c <= 0xe8a)
            }
        } else {
            if c < 0xea7 {
                (0xe8c <= c && c <= 0xea3) || c == 0xea5
            } else {
                (0xea7 <= c && c <= 0xeb0) || (0xeb2 <= c && c <= 0xeb3) || c == 0xebd
            }
        }
    } else {
        if c < 0xf49 {
            if c < 0xedc {
                (0xec0 <= c && c <= 0xec4) || c == 0xec6
            } else {
                (0xedc <= c && c <= 0xedf) || c == 0xf00 || (0xf40 <= c && c <= 0xf47)
            }
        } else {
            if c < 0x1000 {
                (0xf49 <= c && c <= 0xf6c) || (0xf88 <= c && c <= 0xf8c)
            } else {
                (0x1000 <= c && c <= 0x102a) || c == 0x103f || (0x1050 <= c && c <= 0x1055)
            }
        }
    }
}

/// Code points that can start an identifier, from U+105A to U+12BE.
#[verifier::allow_in_spec]
fn start_105a(c: u32) -> bool
    returns
        ((0x105a <= c && c <= 0x105d) || c == 0x1061 || (0x1065 <= c && c <= 0x1066)
        || (0x106e <= c && c <= 0x1070) || (0x1075 <= c && c <= 0x1081) || c == 0x108e
        || (0x10a0 <= c && c <= 0x10c5) || c == 0x10c7 || c == 0x10cd
        || (0x10d0 <= c && c <= 0x10fa) || (0x10fc <= c && c <= 0x1248)
        || (0x124a <= c && c <= 0x124d) || (0x1250 <= c && c <= 0x1256) || c == 0x1258
        || (0x125a <= c && c <= 0x125d) || (0x1260 <= c && c <= 0x1288)
        || (0x128a <= c && c <= 0x128d) || (0x1290 <= c && c <= 0x12b0)
        || (0x12b2 <= c && c <= 0x12b5) || (0x12b8 <= c && c <= 0x12be)),
{
    if c < 0x10fc {
        if c < 0x108e {
            if c < 0x1065 {
                (0x105a <= c && c <= 0x105d) || c == 0x1061
            } else {
                (0x1065 <= c && c <= 0x1066) || (0x106e <= c && c <= 0x1070)
                    || (0x1075 <= c && c <= 0x1081)
            }
        } else {
            if c < 0x10c7 {
                c == 0x108e || (0x10a0 <= c && c <= 0x10c5)
            } else {
                c == 0x10c7 || c == 0x10cd || (0x10d0 <= c && c <= 0x10fa)
            }
        }
    } else {
        if c < 0x1260 {
            if c < 0x1250 {
                (0x10fc <= c && c <= 0x1248) || (0x124a <= c && c <= 0x124d)
            } else {
                (0x1250 <= c && c <= 0x1256) || c == 0x1258 || (0x125a <= c && c <= 0x125d)
            }
        } else {
            if c < 0x1290 {
                (0x1260 <= c && c <= 0x1288) || (0x128a <= c && c <= 0x128d)
            } else {
                (0x1290 <= c && c <= 0x12b0) || (0x12b2 <= c && c <= 0x12b5)
                    || (0x12b8 <= c && c <= 0x12be)
            }
        }
    }
}

/// Code points that can start an identifier, from U+12C0 to U+17B3.
#[verifier::allow_in_spec]
fn start_12c0(c: u32) -> bool
    returns
        (c == 0x12c0 || (0x12c2 <= c && c <= 0x12c5) || (0x12c8 <= c && c <= 0x12d6)
        || (0x12d8 <= c && c <= 0x1310) || (0x1312 <= c && c <= 0x1315)
        || (0x1318 <= c && c <= 0x135a) || (0x1380 <= c && c <= 0x138f)
        || (0x13a0 <= c && c <= 0x13f5) || (0x13f8 <= c && c <= 0x13fd)
        || (0x1401 <= c && c <= 0x166c) || (0x166f <= c && c <= 0x167f)
        || (0x1681 <= c && c <= 0x169a) || (0x16a0 <= c && c <= 0x16ea)
        || (0x16ee <= c && c <= 0x16f8) || (0x1700 <= c && c <= 0x1711)
        || (0x171f <= c && c <= 0x1731) || (0x1740 <= c && c <= 0x1751)
        || (0x1760 <= c && c <= 0x176c) || (0x176e <= c && c <= 0x1770)
        || (0x1780 <= c && c <= 0x17b3)),
{
    if c < 0x166f {
        if c < 0x1318 {
            if c < 0x12c8 {
                c == 0x12c0 || (0x12c2 <= c && c <= 0x12c5)
            } else {
                (0x12c8 <= c && c <= 0x12d6) || (0x12d8 <= c && c <= 0x1310)
                    || (0x1312 <= c && c <= 0x1315)
            }
        } else {
            if c < 0x13a0 {
                (0x1318 <= c && c <= 0x135a) || (0x1380 <= c && c <= 0x138f)
            } else {
                (0x13a0 <= c && c <= 0x13f5) || (0x13f8 <= c && c <= 0x13fd)
                    || (0x1401 <= c && c <= 0x166c)
            }
        }
    } else {
        if c < 0x171f {
            if c < 0x16a0 {
                (0x166f <= c && c <= 0x167f) || (0x1681 <= c && c <= 0x169a)
            } else {
                (0x16a0 <= c && c <= 0x16ea) || (0x16ee <= c && c <= 0x16f8)
                    || (0x1700 <= c && c <= 0x1711)
            }
        } else {
            if c < 0x1760 {
                (0x171f <= c && c <= 0x1731) || (0x1740 <= c && c <= 0x1751)
            } else {
                (0x1760 <= c && c <= 0x176c) || (0x176e <= c && c <= 0x1770)
                    || (0x1780 <= c && c <= 0x17b3)
            }
        }
    }
}

/// Code points that can start an identifier, from U+17D7 to U+1C23.
#[verifier::allow_in_spec]
fn start_17d7(c: u32) -> bool
    returns
        (c == 0x17d7 || c == 0x17dc || (0x1820 <= c && c <= 0x1878)
        || (0x1880 <= c && c <= 0x18a8) || c == 0x18aa || (0x18b0 <= c && c <= 0x18f5)
        || (0x1900 <= c && c <= 0x191e) || (0x1950 <= c && c <= 0x196d)
        || (0x1970 <= c && c <= 0x1974) || (0x1980 <= c && c <= 0x19ab)
        || (0x19b0 <= c && c <= 0x19c9) || (0x1a00 <= c && c <= 0x1a16)
        || (0x1a20 <= c && c <= 0x1a54) || c == 0x1aa7 || (0x1b05 <= c && c <= 0x1b33)
        || (0x1b45 <= c && c <= 0x1b4c) || (0x1b83 <= c && c <= 0x1ba0)
        || (0x1bae <= c && c <= 0x1baf) || (0x1bba <= c && c <= 0x1be5)
        || (0x1c00 <= c && c <= 0x1c23)),
{
    if c < 0x19b0 {
        if c < 0x18b0 {
            if c < 0x1820 {
                c == 0x17d7 || c == 0x17dc
            } else {
                (0x1820 <= c && c <= 0x1878) || (0x1880 <= c && c <= 0x18a8) || c == 0x18aa
            }
        } else {
            if c < 0x1950 {
                (0x18b0 <= c && c <= 0x18f5) || (0x1900 <= c && c <= 0x191e)
            } else {
                (0x1950 <= c && c <= 0x196d) || (0x1970 <= c && c <= 0x1974)
                    || (0x1980 <= c && c <= 0x19ab)
            }
        }
    } else {
        if c < 0x1b45 {
            if c < 0x1a20 {
                (0x19b0 <= c && c <= 0x19c9) || (0x1a00 <= c && c <= 0x1a16)
            } else {
                (0x1a20 <= c && c <= 0x1a54) || c == 0x1aa7 || (0x1b05 <= c && c <= 0x1b33)
            }
        } else {
            if c < 0x1bae {
                (0x1b45 <= c && c <= 0x1b4c) || (0x1b83 <= c && c <= 0x1ba0)
            } else {
                (0x1bae <= c && c <= 0x1baf) || (0x1bba <= c && c <= 0x1be5)
                    || (0x1c00 <= c && c <= 0x1c23)
            }
        }
    }
}

/// Code points that can start an identifier, from U+1C4D to U+1FB4.
#[verifier::allow_in_spec]
fn start_1c4d(c: u32) -> bool
    returns
        ((0x1c4d <= c && c <= 0x1c4f) || (0x1c5a <= c && c <= 0x1c7d)
        || (0x1c80 <= c && c <= 0x1c88) || (0x1c90 <= c && c <= 0x1cba)
        || (0x1cbd <= c && c <= 0x1cbf) || (0x1ce9 <= c && c <= 0x1cec)
        || (0x1cee <= c && c <= 0x1cf3) || (0x1cf5 <= c && c <= 0x1cf6) || c == 0x1cfa
        || (0x1d00 <= c && c <= 0x1dbf) || (0x1e00 <= c && c <= 0x1f15)
        || (0x1f18 <= c && c <= 0x1f1d) || (0x1f20 <= c && c <= 0x1f45)
        || (0x1f48 <= c && c <= 0x1f4d) || (0x1f50 <= c && c <= 0x1f57) || c == 0x1f59
        || c == 0x1f5b || c == 0x1f5d || (0x1f5f <= c && c <= 0x1f7d)
        || (0x1f80 <= c && c <= 0x1fb4)),
{
    if c < 0x1e00 {
        if c < 0x1ce9 {
            if c < 0x1c80 {
                (0x1c4d <= c && c <= 0x1c4f) || (0x1c5a <= c && c <= 0x1c7d)
            } else {
                (0x1c80 <= c && c <= 0x1c88) || (0x1c90 <= c && c <= 0x1cba)
                    || (0x1cbd <= c && c <= 0x1cbf)
            }
        } else {
            if c < 0x1cf5 {
                (0x1ce9 <= c && c <= 0x1cec) || (0x1cee <= c && c <= 0x1cf3)
            } else {
                (0x1cf5 <= c && c <= 0x1cf6) || c == 0x1cfa || (0x1d00 <= c && c <= 0x1dbf)
            }
        }
    } else {
        if c < 0x1f59 {
            if c < 0x1f20 {
                (0x1e00 <= c && c <= 0x1f15) || (0x1f18 <= c && c <= 0x1f1d)
            } else {
                (0x1f20 <= c && c <= 0x1f45) || (0x1f48 <= c && c <= 0x1f4d)
                    || (0x1f50 <= c && c <= 0x1f57)
            }
        } else {
            if c < 0x1f5d {
                c == 0x1f59 || c == 0x1f5b
            } else {
                c == 0x1f5d || (0x1f5f <= c && c <= 0x1f7d) || (0x1f80 <= c && c <= 0x1fb4)
            }
        }
    }
}

/// Code points that can start an identifier, from U+1FB6 to U+2128.
#[verifier::allow_in_spec]
fn start_1fb6(c: u32) -> bool
    returns
        ((0x1fb6 <= c && c <= 0x1fbc) || c == 0x1fbe || (0x1fc2 <= c && c <= 0x1fc4)
        || (0x1fc6 <= c && c <= 0x1fcc) || (0x1fd0 <= c && c <= 0x1fd3)
        || (0x1fd6 <= c && c <= 0x1fdb) || (0x1fe0 <= c && c <= 0x1fec)
        || (0x1ff2 <= c && c <= 0x1ff4) || (0x1ff6 <= c && c <= 0x1ffc) || c == 0x2071
        || c == 0x207f || (0x2090 <= c && c <= 0x209c) || c == 0x2102 || c == 0x2107
        || (0x210a <= c && c <= 0x2113) || c == 0x2115 || (0x2118 <= c && c <= 0x211d)
        || c == 0x2124 || c == 0x2126 || c == 0x2128),
{
    if c < 0x207f {
        if c < 0x1fd6 {
            if c < 0x1fc2 {
                (0x1fb6 <= c && c <= 0x1fbc) || c == 0x1fbe
            } else {
                (0x1fc2 <= c && c <= 0x1fc4) || (0x1fc6 <= c && c <= 0x1fcc)
                    || (0x1fd0 <= c && c <= 0x1fd3)
            }
        } else {
            if c < 0x1ff2 {
                (0x1fd6 <= c && c <= 0x1fdb) || (0x1fe0 <= c && c <= 0x1fec)
            } else {
                (0x1ff2 <= c && c <= 0x1ff4) || (0x1ff6 <= c && c <= 0x1ffc) || c == 0x2071
            }
        }
    } else {
        if c < 0x2115 {
            if c < 0x2102 {
                c == 0x207f || (0x2090 <= c && c <= 0x209c)
            } else {
                c == 0x2102 || c == 0x2107 || (0x210a <= c && c <= 0x2113)
            }
        } else {
            if c < 0x2124 {
                c == 0x2115 || (0x2118 <= c && c <= 0x211d)
            } else {
                c == 0x2124 || c == 0x2126 || c == 0x2128
            }
        }
    }
}

/// Code points that can start an identifier, from U+212A to U+2DCE.
#[verifier::allow_in_spec]
fn start_212a(c: u32) -> bool
    returns
        ((0x212a <= c && c <= 0x2139) || (0x213c <= c && c <= 0x213f)
        || (0x2145 <= c && c <= 0x2149) || c == 0x214e || (0x2160 <= c && c <= 0x2188)
        || (0x2c00 <= c && c <= 0x2ce4) || (0x2ceb <= c && c <= 0x2cee)
        || (0x2cf2 <= c && c <= 0x2cf3) || (0x2d00 <= c && c <= 0x2d25) || c == 0x2d27
        || c == 0x2d2d || (0x2d30 <= c && c <= 0x2d67) || c == 0x2d6f
        || (0x2d80 <= c && c <= 0x2d96) || (0x2da0 <= c && c <= 0x2da6)
        || (0x2da8 <= c && c <= 0x2dae) || (0x2db0 <= c && c <= 0x2db6)
        || (0x2db8 <= c && c <= 0x2dbe) || (0x2dc0 <= c && c <= 0x2dc6)
        || (0x2dc8 <= c && c <= 0x2dce)),
{
    if c < 0x2d2d {
        if c < 0x2c00 {
            if c < 0x2145 {
                (0x212a <= c && c <= 0x2139) || (0x213c <= c && c <= 0x213f)
            } else {
                (0x2145 <= c && c <= 0x2149) || c == 0x214e || (0x2160 <= c && c <= 0x2188)
            }
        } else {
            if c < 0x2cf2 {
                (0x2c00 <= c && c <= 0x2ce4) || (0x2ceb <= c && c <= 0x2cee)
            } else {
                (0x2cf2 <= c && c <= 0x2cf3) || (0x2d00 <= c && c <= 0x2d25) || c == 0x2d27
            }
        }
    } else {
        if c < 0x2da8 {
            if c < 0x2d6f {
                c == 0x2d2d || (0x2d30 <= c && c <= 0x2d67)
            } else {
                c == 0x2d6f || (0x2d80 <= c && c <= 0x2d96) || (0x2da0 <= c && c <= 0x2da6)
            }
        } else {
            if c < 0x2db8 {
                (0x2da8 <= c && c <= 0x2dae) || (0x2db0 <= c && c <= 0x2db6)
            } else {
                (0x2db8 <= c && c <= 0x2dbe) || (0x2dc0 <= c && c <= 0x2dc6)
                    || (0x2dc8 <= c && c <= 0x2dce)
            }
        }
    }
}

/// Code points that can start an identifier, from U+2DD0 to U+A62B.
#[verifier::allow_in_spec]
fn start_2dd0(c: u32) -> bool
    returns
        ((0x2dd0 <= c && c <= 0x2dd6) || (0x2dd8 <= c && c <= 0x2dde)
        || (0x3005 <= c && c <= 0x3007) || (0x3021 <= c && c <= 0x3029)
        || (0x3031 <= c && c <= 0x3035) || (0x3038 <= c && c <= 0x303c)
        || (0x3041 <= c && c <= 0x3096) || (0x309b <= c && c <= 0x309f)
        || (0x30a1 <= c && c <= 0x30fa) || (0x30fc <= c && c <= 0x30ff)
        || (0x3105 <= c && c <= 0x312f) || (0x3131 <= c && c <= 0x318e)
        || (0x31a0 <= c && c <= 0x31bf) || (0x31f0 <= c && c <= 0x31ff)
        || (0x3400 <= c && c <= 0x4dbf) || (0x4e00 <= c && c <= 0xa48c)
        || (0xa4d0 <= c && c <= 0xa4fd) || (0xa500 <= c && c <= 0xa60c)
        || (0xa610 <= c && c <= 0xa61f) || (0xa62a <= c && c <= 0xa62b)),
{
    if c < 0x3105 {
        if c < 0x3038 {
            if c < 0x3005 {
                (0x2dd0 <= c && c <= 0x2dd6) || (0x2dd8 <= c && c <= 0x2dde)
            } else {
                (0x3005 <= c && c <= 0x3007) || (0x3021 <= c && c <= 0x3029)
                    || (0x3031 <= c && c <= 0x3035)
            }
        } else {
            if c < 0x309b {
                (0x3038 <= c && c <= 0x303c) || (0x3041 <= c && c <= 0x3096)
            } else {
                (0x309b <= c && c <= 0x309f) || (0x30a1 <= c && c <= 0x30fa)
                    || (0x30fc <= c && c <= 0x30ff)
            }
        }
    } else {
        if c < 0x4e00 {
            if c < 0x31a0 {
                (0x3105 <= c && c <= 0x312f) || (0x3131 <= c && c <= 0x318e)
            } else {
                (0x31a0 <= c && c <= 0x31bf) || (0x31f0 <= c && c <= 0x31ff)
                    || (0x3400 <= c && c <= 0x4dbf)
            }
        } else {
            if c < 0xa500 {
                (0x4e00 <= c && c <= 0xa48c) || (0xa4d0 <= c && c <= 0xa4fd)
            } else {
                (0xa500 <= c && c <= 0xa60c) || (0xa610 <= c && c <= 0xa61f)
                    || (0xa62a <= c && c <= 0xa62b)
            }
        }
    }
}

/// Code points that can start an identifier, from U+A640 to U+A946.
#[verifier::allow_in_spec]
fn start_a640(c: u32) -> bool
    returns
        ((0xa640 <= c && c <= 0xa66e) || (0xa67f <= c && c <= 0xa69d)
        || (0xa6a0 <= c && c <= 0xa6ef) || (0xa717 <= c && c <= 0xa71f)
        || (0xa722 <= c && c <= 0xa788) || (0xa78b <= c && c <= 0xa7ca)
        || (0xa7d0 <= c && c <= 0xa7d1) || c == 0xa7d3 || (0xa7d5 <= c && c <= 0xa7d9)
        || (0xa7f2 <= c && c <= 0xa801) || (0xa803 <= c && c <= 0xa805)
        || (0xa807 <= c && c <= 0xa80a) || (0xa80c <= c && c <= 0xa822)
        || (0xa840 <= c && c <= 0xa873) || (0xa882 <= c && c <= 0xa8b3)
        || (0xa8f2 <= c && c <= 0xa8f7) || c == 0xa8fb || (0xa8fd <= c && c <= 0xa8fe)
        || (0xa90a <= c && c <= 0xa925) || (0xa930 <= c && c <= 0xa946)),
{
    if c < 0xa803 {
        if c < 0xa78b {
            if c < 0xa6a0 {
                (0xa640 <= c && c <= 0xa66e) || (0xa67f <= c && c <= 0xa69d)
            } else {
                (0xa6a0 <= c && c <= 0xa6ef) || (0xa717 <= c && c <= 0xa71f)
                    || (0xa722 <= c && c <= 0xa788)
            }
        } else {
            if c < 0xa7d3 {
                (0xa78b <= c && c <= 0xa7ca) || (0xa7d0 <= c && c <= 0xa7d1)
            } else {
                c == 0xa7d3 || (0xa7d5 <= c && c <= 0xa7d9) || (0xa7f2 <= c && c <= 0xa801)
            }
        }
    } else {
        if c < 0xa8f2 {
            if c < 0xa80c {
                (0xa803 <= c && c <= 0xa805) || (0xa807 <= c && c <= 0xa80a)
            } else {
                (0xa80c <= c && c <= 0xa822) || (0xa840 <= c && c <= 0xa873)
                    || (0xa882 <= c && c <= 0xa8b3)
            }
        } else {
            if c < 0xa8fd {
                (0xa8f2 <= c && c <= 0xa8f7) || c == 0xa8fb
            } else {
                (0xa8fd <= c && c <= 0xa8fe) || (0xa90a <= c && c <= 0xa925)
                    || (0xa930 <= c && c <= 0xa946)
            }
        }
    }
}

/// Code points that can start an identifier, from U+A960 to U+AAF4.
#[verifier::allow_in_spec]
fn start_a960(c: u32) -> bool
    returns
        ((0xa960 <= c && c <= 0xa97c) || (0xa984 <= c && c <= 0xa9b2) || c == 0xa9cf
        || (0xa9e0 <= c && c <= 0xa9e4) || (0xa9e6 <= c && c <= 0xa9ef)
        || (0xa9fa <= c && c <= 0xa9fe) || (0xaa00 <= c && c <= 0xaa28)
        || (0xaa40 <= c && c <= 0xaa42) || (0xaa44 <= c && c <= 0xaa4b)
        || (0xaa60 <= c && c <= 0xaa76) || c == 0xaa7a || (0xaa7e <= c && c <= 0xaaaf)
        || c == 0xaab1 || (0xaab5 <= c && c <= 0xaab6) || (0xaab9 <= c && c <= 0xaabd)
        || c == 0xaac0 || c == 0xaac2 || (0xaadb <= c && c <= 0xaadd)
        || (0xaae0 <= c && c <= 0xaaea) || (0xaaf2 <= c && c <= 0xaaf4)),
{
    if c < 0xaa7a {
        if c < 0xa9fa {
            if c < 0xa9cf {
                (0xa960 <= c && c <= 0xa97c) || (0xa984 <= c && c <= 0xa9b2)
            } else {
                c == 0xa9cf || (0xa9e0 <= c && c <= 0xa9e4) || (0xa9e6 <= c && c <= 0xa9ef)
            }
        } else {
            if c < 0xaa40 {
                (0xa9fa <= c && c <= 0xa9fe) || (0xaa00 <= c && c <= 0xaa28)
            } else {
                (0xaa40 <= c && c <= 0xaa42) || (0xaa44 <= c && c <= 0xaa4b)
                    || (0xaa60 <= c && c <= 0xaa76)
            }
        }
    } else {
        if c < 0xaac0 {
            if c < 0xaab1 {
                c == 0xaa7a || (0xaa7e <= c && c <= 0xaaaf)
            } else {
                c == 0xaab1 || (0xaab5 <= c && c <= 0xaab6) || (0xaab9 <= c && c <= 0xaabd)
            }
        } else {
            if c < 0xaadb {
                c == 0xaac0 || c == 0xaac2
            } else {
                (0xaadb <= c && c <= 0xaadd) || (0xaae0 <= c && c <= 0xaaea)
                    || (0xaaf2 <= c && c <= 0xaaf4)
            }
        }
    }
}

/// Code points that can start an identifier, from U+AB01 to U+FB3E.
#[verifier::allow_in_spec]
fn start_ab01(c: u32) -> bool
    returns
        ((0xab01 <= c && c <= 0xab06) || (0xab09 <= c && c <= 0xab0e)
        || (0xab11 <= c && c <= 0xab16) || (0xab20 <= c && c <= 0xab26)
        || (0xab28 <= c && c <= 0xab2e) || (0xab30 <= c && c <= 0xab5a)
        || (0xab5c <= c && c <= 0xab69) || (0xab70 <= c && c <= 0xabe2)
        || (0xac00 <= c && c <= 0xd7a3) || (0xd7b0 <= c && c <= 0xd7c6)
        || (0xd7cb <= c && c <= 0xd7fb) || (0xf900 <= c && c <= 0xfa6d)
        || (0xfa70 <= c && c <= 0xfad9) || (0xfb00 <= c && c <= 0xfb06)
        || (0xfb13 <= c && c <= 0xfb17) || c == 0xfb1d || (0xfb1f <= c && c <= 0xfb28)
        || (0xfb2a <= c && c <= 0xfb36) || (0xfb38 <= c && c <= 0xfb3c) || c == 0xfb3e),
{
    if c < 0xd7cb {
        if c < 0xab30 {
            if c < 0xab11 {
                (0xab01 <= c && c <= 0xab06) || (0xab09 <= c && c <= 0xab0e)
            } else {
                (0xab11 <= c && c <= 0xab16) || (0xab20 <= c && c <= 0xab26)
                    || (0xab28 <= c && c <= 0xab2e)
            }
        } else {
            if c < 0xab70 {
                (0xab30 <= c && c <= 0xab5a) || (0xab5c <= c && c <= 0xab69)
            } else {
                (0xab70 <= c && c <= 0xabe2) || (0xac00 <= c && c <= 0xd7a3)
                    || (0xd7b0 <= c && c <= 0xd7c6)
            }
        }
    } else {
        if c < 0xfb1d {
            if c < 0xfa70 {
                (0xd7cb <= c && c <= 0xd7fb) || (0xf900 <= c && c <= 0xfa6d)
            } else {
                (0xfa70 <= c && c <= 0xfad9) || (0xfb00 <= c && c <= 0xfb06)
                    || (0xfb13 <= c && c <= 0xfb17)
            }
        } else {
            if c < 0xfb2a {
                c == 0xfb1d || (0xfb1f <= c && c <= 0xfb28)
            } else {
                (0xfb2a <= c && c <= 0xfb36) || (0xfb38 <= c && c <= 0xfb3c) || c == 0xfb3e
            }
        }
    }
}

/// Code points that can start an identifier, from U+FB40 to U+1003D.
#[verifier::allow_in_spec]
fn start_fb40(c: u32) -> bool
    returns
        ((0xfb40 <= c && c <= 0xfb41) || (0xfb43 <= c && c <= 0xfb44)
        || (0xfb46 <= c && c <= 0xfbb1) || (0xfbd3 <= c && c <= 0xfd3d)
        || (0xfd50 <= c && c <= 0xfd8f) || (0xfd92 <= c && c <= 0xfdc7)
        || (0xfdf0 <= c && c <= 0xfdfb) || (0xfe70 <= c && c <= 0xfe74)
        || (0xfe76 <= c && c <= 0xfefc) || (0xff21 <= c && c <= 0xff3a)
        || (0xff41 <= c && c <= 0xff5a) || (0xff66 <= c && c <= 0xffbe)
        || (0xffc2 <= c && c <= 0xffc7) || (0xffca <= c && c <= 0xffcf)
        || (0xffd2 <= c && c <= 0xffd7) || (0xffda <= c && c <= 0xffdc)
        || (0x10000 <= c && c <= 0x1000b) || (0x1000d <= c && c <= 0x10026)
        || (0x10028 <= c && c <= 0x1003a) || (0x1003c <= c && c <= 0x1003d)),
{
    if c < 0xff41 {
        if c < 0xfd92 {
            if c < 0xfb46 {
                (0xfb40 <= c && c <= 0xfb41) || (0xfb43 <= c && c <= 0xfb44)
            } else {
                (0xfb46 <= c && c <= 0xfbb1) || (0xfbd3 <= c && c <= 0xfd3d)
                    || (0xfd50 <= c && c <= 0xfd8f)
            }
        } else {
            if c < 0xfe70 {
                (0xfd92 <= c && c <= 0xfdc7) || (0xfdf0 <= c && c <= 0xfdfb)
            } else {
                (0xfe70 <= c && c <= 0xfe74) || (0xfe76 <= c && c <= 0xfefc)
                    || (0xff21 <= c && c <= 0xff3a)
            }
        }
    } else {
        if c < 0xffda {
            if c < 0xffc2 {
                (0xff41 <= c && c <= 0xff5a) || (0xff66 <= c && c <= 0xffbe)
            } else {
                (0xffc2 <= c && c <= 0xffc7) || (0xffca <= c && c <= 0xffcf)
                    || (0xffd2 <= c && c <= 0xffd7)
            }
        } else {
            if c < 0x1000d {
                (0xffda <= c && c <= 0xffdc) || (0x10000 <= c && c <= 0x1000b)
            } else {
                (0x1000d <= c && c <= 0x10026) || (0x10028 <= c && c <= 0x1003a)
                    || (0x1003c <= c && c <= 0x1003d)
            }
        }
    }
}

/// Code points that can start an identifier, from U+1003F to U+1058A.
#[verifier::allow_in_spec]
fn start_1003f(c: u32) -> bool
    returns
        ((0x1003f <= c && c <= 0x1004d) || (0x10050 <= c && c <= 0x1005d)
        || (0x10080 <= c && c <= 0x100fa) || (0x10140 <= c && c <= 0x10174)
        || (0x10280 <= c && c <= 0x1029c) || (0x102a0 <= c && c <= 0x102d0)
        || (0x10300 <= c && c <= 0x1031f) || (0x1032d <= c && c <= 0x1034a)
        || (0x10350 <= c && c <= 0x10375) || (0x10380 <= c && c <= 0x1039d)
        || (0x103a0 <= c && c <= 0x103c3) || (0x103c8 <= c && c <= 0x103cf)
        || (0x103d1 <= c && c <= 0x103d5) || (0x10400 <= c && c <= 0x1049d)
        || (0x104b0 <= c && c <= 0x104d3) || (0x104d8 <= c && c <= 0x104fb)
        || (0x10500 <= c && c <= 0x10527) || (0x10530 <= c && c <= 0x10563)
        || (0x10570 <= c && c <= 0x1057a) || (0x1057c <= c && c <= 0x1058a)),
{
    if c < 0x103a0 {
        if c < 0x102a0 {
            if c < 0x10080 {
                (0x1003f <= c && c <= 0x1004d) || (0x10050 <= c && c <= 0x1005d)
            } else {
                (0x10080 <= c && c <= 0x100fa) || (0x10140 <= c && c <= 0x10174)
                    || (0x10280 <= c && c <= 0x1029c)
            }
        } else {
            if c < 0x1032d {
                (0x102a0 <= c && c <= 0x102d0) || (0x10300 <= c && c <= 0x1031f)
            } else {
                (0x1032d <= c && c <= 0x1034a) || (0x10350 <= c && c <= 0x10375)
                    || (0x10380 <= c && c <= 0x1039d)
            }
        }
    } else {
        if c < 0x104d8 {
            if c < 0x103d1 {
                (0x103a0 <= c && c <= 0x103c3) || (0x103c8 <= c && c <= 0x103cf)
            } else {
                (0x103d1 <= c && c <= 0x103d5) || (0x10400 <= c && c <= 0x1049d)
                    || (0x104b0 <= c && c <= 0x104d3)
            }
        } else {
            if c < 0x10530 {
                (0x104d8 <= c && c <= 0x104fb) || (0x10500 <= c && c <= 0x10527)
            } else {
                (0x10530 <= c && c <= 0x10563) || (0x10570 <= c && c <= 0x1057a)
                    || (0x1057c <= c && c <= 0x1058a)
            }
        }
    }
}

/// Code points that can start an identifier, from U+1058C to U+1089E.
#[verifier::allow_in_spec]
fn start_1058c(c: u32) -> bool
    returns
        ((0x1058c <= c && c <= 0x10592) || (0x10594 <= c && c <= 0x10595)
        || (0x10597 <= c && c <= 0x105a1) || (0x105a3 <= c && c <= 0x105b1)
        || (0x105b3 <= c && c <= 0x105b9) || (0x105bb <= c && c <= 0x105bc)
        || (0x10600 <= c && c <= 0x10736) || (0x10740 <= c && c <= 0x10755)
        || (0x10760 <= c && c <= 0x10767) || (0x10780 <= c && c <= 0x10785)
        || (0x10787 <= c && c <= 0x107b0) || (0x107b2 <= c && c <= 0x107ba)
        || (0x10800 <= c && c <= 0x10805) || c == 0x10808 || (0x1080a <= c && c <= 0x10835)
        || (0x10837 <= c && c <= 0x10838) || c == 0x1083c || (0x1083f <= c && c <= 0x10855)
        || (0x10860 <= c && c <= 0x10876) || (0x10880 <= c && c <= 0x1089e)),
{
    if c < 0x10787 {
        if c < 0x105bb {
            if c < 0x10597 {
                (0x1058c <= c && c <= 0x10592) || (0x10594 <= c && c <= 0x10595)
            } else {
                (0x10597 <= c && c <= 0x105a1) || (0x105a3 <= c && c <= 0x105b1)
                    || (0x105b3 <= c && c <= 0x105b9)
            }
        } else {
            if c < 0x10740 {
                (0x105bb <= c && c <= 0x105bc) || (0x10600 <= c && c <= 0x10736)
            } else {
                (0x10740 <= c && c <= 0x10755) || (0x10760 <= c && c <= 0x10767)
                    || (0x10780 <= c && c <= 0x10785)
            }
        }
    } else {
        if c < 0x10837 {
            if c < 0x10800 {
                (0x10787 <= c && c <= 0x107b0) || (0x107b2 <= c && c <= 0x107ba)
            } else {
                (0x10800 <= c && c <= 0x10805) || c == 0x10808
                    || (0x1080a <= c && c <= 0x10835)
            }
        } else {
            if c < 0x1083f {
                (0x10837 <= c && c <= 0x10838) || c == 0x1083c
            } else {
                (0x1083f <= c && c <= 0x10855) || (0x10860 <= c && c <= 0x10876)
                    || (0x10880 <= c && c <= 0x1089e)
            }
        }
    }
}

/// Code points that can start an identifier, from U+108E0 to U+10CB2.
#[verifier::allow_in_spec]
fn start_108e0(c: u32) -> bool
    returns
        ((0x108e0 <= c && c <= 0x108f2) || (0x108f4 <= c && c <= 0x108f5)
        || (0x10900 <= c && c <= 0x10915) || (0x10920 <= c && c <= 0x10939)
        || (0x10980 <= c && c <= 0x109b7) || (0x109be <= c && c <= 0x109bf) || c == 0x10a00
        || (0x10a10 <= c && c <= 0x10a13) || (0x10a15 <= c && c <= 0x10a17)
        || (0x10a19 <= c && c <= 0x10a35) || (0x10a60 <= c && c <= 0x10a7c)
        || (0x10a80 <= c && c <= 0x10a9c) || (0x10ac0 <= c && c <= 0x10ac7)
        || (0x10ac9 <= c && c <= 0x10ae4) || (0x10b00 <= c && c <= 0x10b35)
        || (0x10b40 <= c && c <= 0x10b55) || (0x10b60 <= c && c <= 0x10b72)
        || (0x10b80 <= c && c <= 0x10b91) || (0x10c00 <= c && c <= 0x10c48)
        || (0x10c80 <= c && c <= 0x10cb2)),
{
    if c < 0x10a60 {
        if c < 0x109be {
            if c < 0x10900 {
                (0x108e0 <= c && c <= 0x108f2) || (0x108f4 <= c && c <= 0x108f5)
            } else {
                (0x10900 <= c && c <= 0x10915) || (0x10920 <= c && c <= 0x10939)
                    || (0x10980 <= c && c <= 0x109b7)
            }
        } else {
            if c < 0x10a10 {
                (0x109be <= c && c <= 0x109bf) || c == 0x10a00
            } else {
                (0x10a10 <= c && c <= 0x10a13) || (0x10a15 <= c && c <= 0x10a17)
                    || (0x10a19 <= c && c <= 0x10a35)
            }
        }
    } else {
        if c < 0x10b40 {
            if c < 0x10ac0 {
                (0x10a60 <= c && c <= 0x10a7c) || (0x10a80 <= c && c <= 0x10a9c)
            } else {
                (0x10ac0 <= c && c <= 0x10ac7) || (0x10ac9 <= c && c <= 0x10ae4)
                    || (0x10b00 <= c && c <= 0x10b35)
            }
        } else {
            if c < 0x10b80 {
                (0x10b40 <= c && c <= 0x10b55) || (0x10b60 <= c && c <= 0x10b72)
            } else {
                (0x10b80 <= c && c <= 0x10b91) || (0x10c00 <= c && c <= 0x10c48)
                    || (0x10c80 <= c && c <= 0x10cb2)
            }
        }
    }
}

/// Code points that can start an identifier, from U+10CC0 to U+11176.
#[verifier::allow_in_spec]
fn start_10cc0(c: u32) -> bool
    returns
        ((0x10cc0 <= c && c <= 0x10cf2) || (0x10d00 <= c && c <= 0x10d23)
        || (0x10e80 <= c && c <= 0x10ea9) || (0x10eb0 <= c && c <= 0x10eb1)
        || (0x10f00 <= c && c <= 0x10f1c) || c == 0x10f27 || (0x10f30 <= c && c <= 0x10f45)
        || (0x10f70 <= c && c <= 0x10f81) || (0x10fb0 <= c && c <= 0x10fc4)
        || (0x10fe0 <= c && c <= 0x10ff6) || (0x11003 <= c && c <= 0x11037)
        || (0x11071 <= c && c <= 0x11072) || c == 0x11075 || (0x11083 <= c && c <= 0x110af)
        || (0x110d0 <= c && c <= 0x110e8) || (0x11103 <= c && c <= 0x11126) || c == 0x11144
        || c == 0x11147 || (0x11150 <= c && c <= 0x11172) || c == 0x11176),
{
    if c < 0x11003 {
        if c < 0x10f27 {
            if c < 0x10e80 {
                (0x10cc0 <= c && c <= 0x10cf2) || (0x10d00 <= c && c <= 0x10d23)
            } else {
                (0x10e80 <= c && c <= 0x10ea9) || (0x10eb0 <= c && c <= 0x10eb1)
                    || (0x10f00 <= c && c <= 0x10f1c)
            }
        } else {
            if c < 0x10f70 {
                c == 0x10f27 || (0x10f30 <= c && c <= 0x10f45)
            } else {
                (0x10f70 <= c && c <= 0x10f81) || (0x10fb0 <= c && c <= 0x10fc4)
                    || (0x10fe0 <= c && c <= 0x10ff6)
            }
        }
    } else {
        if c < 0x11103 {
            if c < 0x11075 {
                (0x11003 <= c && c <= 0x11037) || (0x11071 <= c && c <= 0x11072)
            } else {
                c == 0x11075 || (0x11083 <= c && c <= 0x110af)
                    || (0x110d0 <= c && c <= 0x110e8)
            }
        } else {
            if c < 0x11147 {
                (0x11103 <= c && c <= 0x11126) || c == 0x11144
            } else {
                c == 0x11147 || (0x11150 <= c && c <= 0x11172) || c == 0x11176
            }
        }
    }
}

/// Code points that can start an identifier, from U+11183 to U+11350.
#[verifier::allow_in_spec]
fn start_11183(c: u32) -> bool
    returns
        ((0x11183 <= c && c <= 0x111b2) || (0x111c1 <= c && c <= 0x111c4) || c == 0x111da
        || c == 0x111dc || (0x11200 <= c && c <= 0x11211) || (0x11213 <= c && c <= 0x1122b)
        || (0x11280 <= c && c <= 0x11286) || c == 0x11288 || (0x1128a <= c && c <= 0x1128d)
        || (0x1128f <= c && c <= 0x1129d) || (0x1129f <= c && c <= 0x112a8)
        || (0x112b0 <= c && c <= 0x112de) || (0x11305 <= c && c <= 0x1130c)
        || (0x1130f <= c && c <= 0x11310) || (0x11313 <= c && c <= 0x11328)
        || (0x1132a <= c && c <= 0x11330) || (0x11332 <= c && c <= 0x11333)
        || (0x11335 <= c && c <= 0x11339) || c == 0x1133d || c == 0x11350),
{
    if c < 0x1129f {
        if c < 0x11213 {
            if c < 0x111da {
                (0x11183 <= c && c <= 0x111b2) || (0x111c1 <= c && c <= 0x111c4)
            } else {
                c == 0x111da || c == 0x111dc || (0x11200 <= c && c <= 0x11211)
            }
        } else {
            if c < 0x11288 {
                (0x11213 <= c && c <= 0x1122b) || (0x11280 <= c && c <= 0x11286)
            } else {
                c == 0x11288 || (0x1128a <= c && c <= 0x1128d)
                    || (0x1128f <= c && c <= 0x1129d)
            }
        }
    } else {
        if c < 0x1132a {
            if c < 0x11305 {
                (0x1129f <= c && c <= 0x112a8) || (0x112b0 <= c && c <= 0x112de)
            } else {
                (0x11305 <= c && c <= 0x1130c) || (0x1130f <= c && c <= 0x11310)
                    || (0x11313 <= c && c <= 0x11328)
            }
        } else {
            if c < 0x11335 {
                (0x1132a <= c && c <= 0x11330) || (0x11332 <= c && c <= 0x11333)
            } else {
                (0x11335 <= c && c <= 0x11339) || c == 0x1133d || c == 0x11350
            }
        }
    }
}

/// Code points that can start an identifier, from U+1135D to U+11913.
#[verifier::allow_in_spec]
fn start_1135d(c: u32) -> bool
    returns
        ((0x1135d <= c && c <= 0x11361) || (0x11400 <= c && c <= 0x11434)
        || (0x11447 <= c && c <= 0x1144a) || (0x1145f <= c && c <= 0x11461)
        || (0x11480 <= c && c <= 0x114af) || (0x114c4 <= c && c <= 0x114c5) || c == 0x114c7
        || (0x11580 <= c && c <= 0x115ae) || (0x115d8 <= c && c <= 0x115db)
        || (0x11600 <= c && c <= 0x1162f) || c == 0x11644 || (0x11680 <= c && c <= 0x116aa)
        || c == 0x116b8 || (0x11700 <= c && c <= 0x1171a) || (0x11740 <= c && c <= 0x11746)
        || (0x11800 <= c && c <= 0x1182b) || (0x118a0 <= c && c <= 0x118df)
        || (0x118ff <= c && c <= 0x11906) || c == 0x11909 || (0x1190c <= c && c <= 0x11913)),
{
    if c < 0x11644 {
        if c < 0x114c4 {
            if c < 0x11447 {
                (0x1135d <= c && c <= 0x11361) || (0x11400 <= c && c <= 0x11434)
            } else {
                (0x11447 <= c && c <= 0x1144a) || (0x1145f <= c && c <= 0x11461)
                    || (0x11480 <= c && c <= 0x114af)
            }
        } else {
            if c < 0x11580 {
                (0x114c4 <= c && c <= 0x114c5) || c == 0x114c7
            } else {
                (0x11580 <= c && c <= 0x115ae) || (0x115d8 <= c && c <= 0x115db)
                    || (0x11600 <= c && c <= 0x1162f)
            }
        }
    } else {
        if c < 0x11800 {
            if c < 0x116b8 {
                c == 0x11644 || (0x11680 <= c && c <= 0x116aa)
            } else {
                c == 0x116b8 || (0x11700 <= c && c <= 0x1171a)
                    || (0x11740 <= c && c <= 0x11746)
            }
        } else {
            if c < 0x118ff {
                (0x11800 <= c && c <= 0x1182b) || (0x118a0 <= c && c <= 0x118df)
            } else {
                (0x118ff <= c && c <= 0x11906) || c == 0x11909
                    || (0x1190c <= c && c <= 0x11913)
            }
        }
    }
}

/// Code points that can start an identifier, from U+11915 to U+11D06.
#[verifier::allow_in_spec]
fn start_11915(c: u32) -> bool
    returns
        ((0x11915 <= c && c <= 0x11916) || (0x11918 <= c && c <= 0x1192f) || c == 0x1193f
        || c == 0x11941 || (0x119a0 <= c && c <= 0x119a7) || (0x119aa <= c && c <= 0x119d0)
        || c == 0x119e1 || c == 0x119e3 || c == 0x11a00 || (0x11a0b <= c && c <= 0x11a32)
        || c == 0x11a3a || c == 0x11a50 || (0x11a5c <= c && c <= 0x11a89) || c == 0x11a9d
        || (0x11ab0 <= c && c <= 0x11af8) || (0x11c00 <= c && c <= 0x11c08)
        || (0x11c0a <= c && c <= 0x11c2e) || c == 0x11c40 || (0x11c72 <= c && c <= 0x11c8f)
        || (0x11d00 <= c && c <= 0x11d06)),
{
    if c < 0x11a3a {
        if c < 0x119aa {
            if c < 0x1193f {
                (0x11915 <= c && c <= 0x11916) || (0x11918 <= c && c <= 0x1192f)
            } else {
                c == 0x1193f || c == 0x11941 || (0x119a0 <= c && c <= 0x119a7)
            }
        } else {
            if c < 0x119e3 {
                (0x119aa <= c && c <= 0x119d0) || c == 0x119e1
            } else {
                c == 0x119e3 || c == 0x11a00 || (0x11a0b <= c && c <= 0x11a32)
            }
        }
    } else {
        if c < 0x11c00 {
            if c < 0x11a5c {
                c == 0x11a3a || c == 0x11a50
            } else {
                (0x11a5c <= c && c <= 0x11a89) || c == 0x11a9d
                    || (0x11ab0 <= c && c <= 0x11af8)
            }
        } else {
            if c < 0x11c40 {
                (0x11c00 <= c && c <= 0x11c08) || (0x11c0a <= c && c <= 0x11c2e)
            } else {
                c == 0x11c40 || (0x11c72 <= c && c <= 0x11c8f)
                    || (0x11d00 <= c && c <= 0x11d06)
            }
        }
    }
}

/// Code points that can start an identifier, from U+11D08 to U+16B2F.
#[verifier::allow_in_spec]
fn start_11d08(c: u32) -> bool
    returns
        ((0x11d08 <= c && c <= 0x11d09) || (0x11d0b <= c && c <= 0x11d30) || c == 0x11d46
        || (0x11d60 <= c && c <= 0x11d65) || (0x11d67 <= c && c <= 0x11d68)
        || (0x11d6a <= c && c <= 0x11d89) || c == 0x11d98 || (0x11ee0 <= c && c <= 0x11ef2)
        || c == 0x11fb0 || (0x12000 <= c && c <= 0x12399) || (0x12400 <= c && c <= 0x1246e)
        || (0x12480 <= c && c <= 0x12543) || (0x12f90 <= c && c <= 0x12ff0)
        || (0x13000 <= c && c <= 0x1342e) || (0x14400 <= c && c <= 0x14646)
        || (0x16800 <= c && c <= 0x16a38) || (0x16a40 <= c && c <= 0x16a5e)
        || (0x16a70 <= c && c <= 0x16abe) || (0x16ad0 <= c && c <= 0x16aed)
        || (0x16b00 <= c && c <= 0x16b2f)),
{
    if c < 0x12400 {
        if c < 0x11d6a {
            if c < 0x11d46 {
                (0x11d08 <= c && c <= 0x11d09) || (0x11d0b <= c && c <= 0x11d30)
            } else {
                c == 0x11d46 || (0x11d60 <= c && c <= 0x11d65)
                    || (0x11d67 <= c && c <= 0x11d68)
            }
        } else {
            if c < 0x11ee0 {
                (0x11d6a <= c && c <= 0x11d89) || c == 0x11d98
            } else {
                (0x11ee0 <= c && c <= 0x11ef2) || c == 0x11fb0
                    || (0x12000 <= c && c <= 0x12399)
            }
        }
    } else {
        if c < 0x16800 {
            if c < 0x12f90 {
                (0x12400 <= c && c <= 0x1246e) || (0x12480 <= c && c <= 0x12543)
            } else {
                (0x12f90 <= c && c <= 0x12ff0) || (0x13000 <= c && c <= 0x1342e)
                    || (0x14400 <= c && c <= 0x14646)
            }
        } else {
            if c < 0x16a70 {
                (0x16800 <= c && c <= 0x16a38) || (0x16a40 <= c && c <= 0x16a5e)
            } else {
                (0x16a70 <= c && c <= 0x16abe) || (0x16ad0 <= c && c <= 0x16aed)
                    || (0x16b00 <= c && c <= 0x16b2f)
            }
        }
    }
}

/// Code points that can start an identifier, from U+16B40 to U+1BC6A.
#[verifier::allow_in_spec]
fn start_16b40(c: u32) -> bool
    returns
        ((0x16b40 <= c && c <= 0x16b43) || (0x16b63 <= c && c <= 0x16b77)
        || (0x16b7d <= c && c <= 0x16b8f) || (0x16e40 <= c && c <= 0x16e7f)
        || (0x16f00 <= c && c <= 0x16f4a) || c == 0x16f50 || (0x16f93 <= c && c <= 0x16f9f)
        || (0x16fe0 <= c && c <= 0x16fe1) || c == 0x16fe3 || (0x17000 <= c && c <= 0x187f7)
        || (0x18800 <= c && c <= 0x18cd5) || (0x18d00 <= c && c <= 0x18d08)
        || (0x1aff0 <= c && c <= 0x1aff3) || (0x1aff5 <= c && c <= 0x1affb)
        || (0x1affd <= c && c <= 0x1affe) || (0x1b000 <= c && c <= 0x1b122)
        || (0x1b150 <= c && c <= 0x1b152) || (0x1b164 <= c && c <= 0x1b167)
        || (0x1b170 <= c && c <= 0x1b2fb) || (0x1bc00 <= c && c <= 0x1bc6a)),
{
    if c < 0x18800 {
        if c < 0x16f50 {
            if c < 0x16b7d {
                (0x16b40 <= c && c <= 0x16b43) || (0x16b63 <= c && c <= 0x16b77)
            } else {
                (0x16b7d <= c && c <= 0x16b8f) || (0x16e40 <= c && c <= 0x16e7f)
                    || (0x16f00 <= c && c <= 0x16f4a)
            }
        } else {
            if c < 0x16fe0 {
                c == 0x16f50 || (0x16f93 <= c && c <= 0x16f9f)
            } else {
                (0x16fe0 <= c && c <= 0x16fe1) || c == 0x16fe3
                    || (0x17000 <= c && c <= 0x187f7)
            }
        }
    } else {
        if c < 0x1b000 {
            if c < 0x1aff0 {
                (0x18800 <= c && c <= 0x18cd5) || (0x18d00 <= c && c <= 0x18d08)
            } else {
                (0x1aff0 <= c && c <= 0x1aff3) || (0x1aff5 <= c && c <= 0x1affb)
                    || (0x1affd <= c && c <= 0x1affe)
            }
        } else {
            if c < 0x1b164 {
                (0x1b000 <= c && c <= 0x1b122) || (0x1b150 <= c && c <= 0x1b152)
            } else {
                (0x1b164 <= c && c <= 0x1b167) || (0x1b170 <= c && c <= 0x1b2fb)
                    || (0x1bc00 <= c && c <= 0x1bc6a)
            }
        }
    }
}

/// Code points that can start an identifier, from U+1BC70 to U+1D546.
#[verifier::allow_in_spec]
fn start_1bc70(c: u32) -> bool
    returns
        ((0x1bc70 <= c && c <= 0x1bc7c) || (0x1bc80 <= c && c <= 0x1bc88)
        || (0x1bc90 <= c && c <= 0x1bc99) || (0x1d400 <= c && c <= 0x1d454)
        || (0x1d456 <= c && c <= 0x1d49c) || (0x1d49e <= c && c <= 0x1d49f) || c == 0x1d4a2
        || (0x1d4a5 <= c && c <= 0x1d4a6) || (0x1d4a9 <= c && c <= 0x1d4ac)
        || (0x1d4ae <= c && c <= 0x1d4b9) || c == 0x1d4bb || (0x1d4bd <= c && c <= 0x1d4c3)
        || (0x1d4c5 <= c && c <= 0x1d505) || (0x1d507 <= c && c <= 0x1d50a)
        || (0x1d50d <= c && c <= 0x1d514) || (0x1d516 <= c && c <= 0x1d51c)
        || (0x1d51e <= c && c <= 0x1d539) || (0x1d53b <= c && c <= 0x1d53e)
        || (0x1d540 <= c && c <= 0x1d544) || c == 0x1d546),
{
    if c < 0x1d4bb {
        if c < 0x1d49e {
            if c < 0x1bc90 {
                (0x1bc70 <= c && c <= 0x1bc7c) || (0x1bc80 <= c && c <= 0x1bc88)
            } else {
                (0x1bc90 <= c && c <= 0x1bc99) || (0x1d400 <= c && c <= 0x1d454)
                    || (0x1d456 <= c && c <= 0x1d49c)
            }
        } else {
            if c < 0x1d4a5 {
                (0x1d49e <= c && c <= 0x1d49f) || c == 0x1d4a2
            } else {
                (0x1d4a5 <= c && c <= 0x1d4a6) || (0x1d4a9 <= c && c <= 0x1d4ac)
                    || (0x1d4ae <= c && c <= 0x1d4b9)
            }
        }
    } else {
        if c < 0x1d516 {
            if c < 0x1d4c5 {
                c == 0x1d4bb || (0x1d4bd <= c && c <= 0x1d4c3)
            } else {
                (0x1d4c5 <= c && c <= 0x1d505) || (0x1d507 <= c && c <= 0x1d50a)
                    || (0x1d50d <= c && c <= 0x1d514)
            }
        } else {
            if c < 0x1d53b {
                (0x1d516 <= c && c <= 0x1d51c) || (0x1d51e <= c && c <= 0x1d539)
            } else {
                (0x1d53b <= c && c <= 0x1d53e) || (0x1d540 <= c && c <= 0x1d544)
                    || c == 0x1d546
            }
        }
    }
}

/// Code points that can start an identifier, from U+1D54A to U+1E7E6.
#[verifier::allow_in_spec]
fn start_1d54a(c: u32) -> bool
    returns
        ((0x1d54a <= c && c <= 0x1d550) || (0x1d552 <= c && c <= 0x1d6a5)
        || (0x1d6a8 <= c && c <= 0x1d6c0) || (0x1d6c2 <= c && c <= 0x1d6da)
        || (0x1d6dc <= c && c <= 0x1d6fa) || (0x1d6fc <= c && c <= 0x1d714)
        || (0x1d716 <= c && c <= 0x1d734) || (0x1d736 <= c && c <= 0x1d74e)
        || (0x1d750 <= c && c <= 0x1d76e) || (0x1d770 <= c && c <= 0x1d788)
        || (0x1d78a <= c && c <= 0x1d7a8) || (0x1d7aa <= c && c <= 0x1d7c2)
        || (0x1d7c4 <= c && c <= 0x1d7cb) || (0x1df00 <= c && c <= 0x1df1e)
        || (0x1e100 <= c && c <= 0x1e12c) || (0x1e137 <= c && c <= 0x1e13d) || c == 0x1e14e
        || (0x1e290 <= c && c <= 0x1e2ad) || (0x1e2c0 <= c && c <= 0x1e2eb)
        || (0x1e7e0 <= c && c <= 0x1e7e6)),
{
    if c < 0x1d78a {
        if c < 0x1d6fc {
            if c < 0x1d6a8 {
                (0x1d54a <= c && c <= 0x1d550) || (0x1d552 <= c && c <= 0x1d6a5)
            } else {
                (0x1d6a8 <= c && c <= 0x1d6c0) || (0x1d6c2 <= c && c <= 0x1d6da)
                    || (0x1d6dc <= c && c <= 0x1d6fa)
            }
        } else {
            if c < 0x1d736 {
                (0x1d6fc <= c && c <= 0x1d714) || (0x1d716 <= c && c <= 0x1d734)
            } else {
                (0x1d736 <= c && c <= 0x1d74e) || (0x1d750 <= c && c <= 0x1d76e)
                    || (0x1d770 <= c && c <= 0x1d788)
            }
        }
    } else {
        if c < 0x1e137 {
            if c < 0x1d7c4 {
                (0x1d78a <= c && c <= 0x1d7a8) || (0x1d7aa <= c && c <= 0x1d7c2)
            } else {
                (0x1d7c4 <= c && c <= 0x1d7cb) || (0x1df00 <= c && c <= 0x1df1e)
                    || (0x1e100 <= c && c <= 0x1e12c)
            }
        } else {
            if c < 0x1e290 {
                (0x1e137 <= c && c <= 0x1e13d) || c == 0x1e14e
            } else {
                (0x1e290 <= c && c <= 0x1e2ad) || (0x1e2c0 <= c && c <= 0x1e2eb)
                    || (0x1e7e0 <= c && c <= 0x1e7e6)
            }
        }
    }
}

/// Code points that can start an identifier, from U+1E7E8 to U+1EE4F.
#[verifier::allow_in_spec]
fn start_1e7e8(c: u32) -> bool
    returns
        ((0x1e7e8 <= c && c <= 0x1e7eb) || (0x1e7ed <= c && c <= 0x1e7ee)
        || (0x1e7f0 <= c && c <= 0x1e7fe) || (0x1e800 <= c && c <= 0x1e8c4)
        || (0x1e900 <= c && c <= 0x1e943) || c == 0x1e94b || (0x1ee00 <= c && c <= 0x1ee03)
        || (0x1ee05 <= c && c <= 0x1ee1f) || (0x1ee21 <= c && c <= 0x1ee22) || c == 0x1ee24
        || c == 0x1ee27 || (0x1ee29 <= c && c <= 0x1ee32) || (0x1ee34 <= c && c <= 0x1ee37)
        || c == 0x1ee39 || c == 0x1ee3b || c == 0x1ee42 || c == 0x1ee47 || c == 0x1ee49
        || c == 0x1ee4b || (0x1ee4d <= c && c <= 0x1ee4f)),
{
    if c < 0x1ee27 {
        if c < 0x1e94b {
            if c < 0x1e7f0 {
                (0x1e7e8 <= c && c <= 0x1e7eb) || (0x1e7ed <= c && c <= 0x1e7ee)
            } else {
                (0x1e7f0 <= c && c <= 0x1e7fe) || (0x1e800 <= c && c <= 0x1e8c4)
                    || (0x1e900 <= c && c <= 0x1e943)
            }
        } else {
            if c < 0x1ee05 {
                c == 0x1e94b || (0x1ee00 <= c && c <= 0x1ee03)
            } else {
                (0x1ee05 <= c && c <= 0x1ee1f) || (0x1ee21 <= c && c <= 0x1ee22)
                    || c == 0x1ee24
            }
        }
    } else {
        if c < 0x1ee42 {
            if c < 0x1ee34 {
                c == 0x1ee27 || (0x1ee29 <= c && c <= 0x1ee32)
            } else {
                (0x1ee34 <= c && c <= 0x1ee37) || c == 0x1ee39 || c == 0x1ee3b
            }
        } else {
            if c < 0x1ee49 {
                c == 0x1ee42 || c == 0x1ee47
            } else {
                c == 0x1ee49 || c == 0x1ee4b || (0x1ee4d <= c && c <= 0x1ee4f)
            }
        }
    }
}

/// Code points that can start an identifier, from U+1EE51 to U+2A6DF.
#[verifier::allow_in_spec]
fn start_1ee51(c: u32) -> bool
    returns
        ((0x1ee51 <= c && c <= 0x1ee52) || c == 0x1ee54 || c == 0x1ee57 || c == 0x1ee59
        || c == 0x1ee5b || c == 0x1ee5d || c == 0x1ee5f || (0x1ee61 <= c && c <= 0x1ee62)
        || c == 0x1ee64 || (0x1ee67 <= c && c <= 0x1ee6a) || (0x1ee6c <= c && c <= 0x1ee72)
        || (0x1ee74 <= c && c <= 0x1ee77) || (0x1ee79 <= c && c <= 0x1ee7c) || c == 0x1ee7e
        || (0x1ee80 <= c && c <= 0x1ee89) || (0x1ee8b <= c && c <= 0x1ee9b)
        || (0x1eea1 <= c && c <= 0x1eea3) || (0x1eea5 <= c && c <= 0x1eea9)
        || (0x1eeab <= c && c <= 0x1eebb) || (0x20000 <= c && c <= 0x2a6df)),
{
    if c < 0x1ee6c {
        if c < 0x1ee5d {
            if c < 0x1ee57 {
                (0x1ee51 <= c && c <= 0x1ee52) || c == 0x1ee54
            } else {
                c == 0x1ee57 || c == 0x1ee59 || c == 0x1ee5b
            }
        } else {
            if c < 0x1ee61 {
                c == 0x1ee5d || c == 0x1ee5f
            } else {
                (0x1ee61 <= c && c <= 0x1ee62) || c == 0x1ee64
                    || (0x1ee67 <= c && c <= 0x1ee6a)
            }
        }
    } else {
        if c < 0x1ee8b {
            if c < 0x1ee79 {
                (0x1ee6c <= c && c <= 0x1ee72) || (0x1ee74 <= c && c <= 0x1ee77)
            } else {
                (0x1ee79 <= c && c <= 0x1ee7c) || c == 0x1ee7e
                    || (0x1ee80 <= c && c <= 0x1ee89)
            }
        } else {
            if c < 0x1eea5 {
                (0x1ee8b <= c && c <= 0x1ee9b) || (0x1eea1 <= c && c <= 0x1eea3)
            } else {
                (0x1eea5 <= c && c <= 0x1eea9) || (0x1eeab <= c && c <= 0x1eebb)
                    || (0x20000 <= c && c <= 0x2a6df)
            }
        }
    }
}

/// Code points that can start an identifier, from U+2A700 to U+3134A.
#[verifier::allow_in_spec]
fn start_2a700(c: u32) -> bool
    returns
        ((0x2a700 <= c && c <= 0x2b738) || (0x2b740 <= c && c <= 0x2b81d)
        || (0x2b820 <= c && c <= 0x2cea1) || (0x2ceb0 <= c && c <= 0x2ebe0)
        || (0x2f800 <= c && c <= 0x2fa1d) || (0x30000 <= c && c <= 0x3134a)),
{
    if c < 0x2ceb0 {
        (0x2a700 <= c && c <= 0x2b738) || (0x2b740 <= c && c <= 0x2b81d)
            || (0x2b820 <= c && c <= 0x2cea1)
    } else {
        (0x2ceb0 <= c && c <= 0x2ebe0) || (0x2f800 <= c && c <= 0x2fa1d)
            || (0x30000 <= c && c <= 0x3134a)
    }
}

/// Code points that can continue an identifier but not start one, from U+00B7 to U+07B0.
#[verifier::allow_in_spec]
fn part_00b7(c: u32) -> bool
    returns
        (c == 0xb7 || (0x300 <= c && c <= 0x36f) || c == 0x387 || (0x483 <= c && c <= 0x487)
        || (0x591 <= c && c <= 0x5bd) || c == 0x5bf || (0x5c1 <= c && c <= 0x5c2)
        || (0x5c4 <= c && c <= 0x5c5) || c == 0x5c7 || (0x610 <= c && c <= 0x61a)
        || (0x64b <= c && c <= 0x669) || c == 0x670 || (0x6d6 <= c && c <= 0x6dc)
        || (0x6df <= c && c <= 0x6e4) || (0x6e7 <= c && c <= 0x6e8)
        || (0x6ea <= c && c <= 0x6ed) || (0x6f0 <= c && c <= 0x6f9) || c == 0x711
        || (0x730 <= c && c <= 0x74a) || (0x7a6 <= c && c <= 0x7b0)),
{
    if c < 0x64b {
        if c < 0x5bf {
            if c < 0x387 {
                c == 0xb7 || (0x300 <= c && c <= 0x36f)
            } else {
                c == 0x387 || (0x483 <= c && c <= 0x487) || (0x591 <= c && c <= 0x5bd)
            }
        } else {
            if c < 0x5c4 {
                c == 0x5bf || (0x5c1 <= c && c <= 0x5c2)
            } else {
                (0x5c4 <= c && c <= 0x5c5) || c == 0x5c7 || (0x610 <= c && c <= 0x61a)
            }
        }
    } else {
        if c < 0x6ea {
            if c < 0x6d6 {
                (0x64b <= c && c <= 0x669) || c == 0x670
            } else {
                (0x6d6 <= c && c <= 0x6dc) || (0x6df <= c && c <= 0x6e4)
                    || (0x6e7 <= c && c <= 0x6e8)
            }
        } else {
            if c < 0x711 {
                (0x6ea <= c && c <= 0x6ed) || (0x6f0 <= c && c <= 0x6f9)
            } else {
                c == 0x711 || (0x730 <= c && c <= 0x74a) || (0x7a6 <= c && c <= 0x7b0)
            }
        }
    }
}

/// Code points that can continue an identifier but not start one, from U+07C0 to U+09C8.
#[verifier::allow_in_spec]
fn part_07c0(c: u32) -> bool
    returns
        ((0x7c0 <= c && c <= 0x7c9) || (0x7eb <= c && c <= 0x7f3) || c == 0x7fd
        || (0x816 <= c && c <= 0x819) || (0x81b <= c && c <= 0x823)
        || (0x825 <= c && c <= 0x827) || (0x829 <= c && c <= 0x82d)
        || (0x859 <= c && c <= 0x85b) || (0x898 <= c && c <= 0x89f)
        || (0x8ca <= c && c <= 0x8e1) || (0x8e3 <= c && c <= 0x903)
        || (0x93a <= c && c <= 0x93c) || (0x93e <= c && c <= 0x94f)
        || (0x951 <= c && c <= 0x957) || (0x962 <= c && c <= 0x963)
        || (0x966 <= c && c <= 0x96f) || (0x981 <= c && c <= 0x983) || c == 0x9bc
        || (0x9be <= c && c <= 0x9c4) || (0x9c7 <= c && c <= 0x9c8)),
{
    if c < 0x8e3 {
        if c < 0x825 {
            if c < 0x7fd {
                (0x7c0 <= c && c <= 0x7c9) || (0x7eb <= c && c <= 0x7f3)
            } else {
                c == 0x7fd || (0x816 <= c && c <= 0x819) || (0x81b <= c && c <= 0x823)
            }
        } else {
            if c < 0x859 {
                (0x825 <= c && c <= 0x827) || (0x829 <= c && c <= 0x82d)
            } else {
                (0x859 <= c && c <= 0x85b) || (0x898 <= c && c <= 0x89f)
                    || (0x8ca <= c && c <= 0x8e1)
            }
        }
    } else {
        if c < 0x966 {
            if c < 0x93e {
                (0x8e3 <= c && c <= 0x903) || (0x93a <= c && c <= 0x93c)
            } else {
                (0x93e <= c && c <= 0x94f) || (0x951 <= c && c <= 0x957)
                    || (0x962 <= c && c <= 0x963)
            }
        } else {
            if c < 0x9bc {
                (0x966 <= c && c <= 0x96f) || (0x981 <= c && c <= 0x983)
            } else {
                c == 0x9bc || (0x9be <= c && c <= 0x9c4) || (0x9c7 <= c && c <= 0x9c8)
            }
        }
    }
}

/// Code points that can continue an identifier but not start one, from U+09CB to U+0AEF.
#[verifier::allow_in_spec]
fn part_09cb(c: u32) -> bool
    returns
        ((0x9cb <= c && c <= 0x9cd) || c == 0x9d7 || (0x9e2 <= c && c <= 0x9e3)
        || (0x9e6 <= c && c <= 0x9ef) || c == 0x9fe || (0xa01 <= c && c <= 0xa03) || c == 0xa3c
        || (0xa3e <= c && c <= 0xa42) || (0xa47 <= c && c <= 0xa48)
        || (0xa4b <= c && c <= 0xa4d) || c == 0xa51 || (0xa66 <= c && c <= 0xa71) || c == 0xa75
        || (0xa81 <= c && c <= 0xa83) || c == 0xabc || (0xabe <= c && c <= 0xac5)
        || (0xac7 <= c && c <= 0xac9) || (0xacb <= c && c <= 0xacd)
        || (0xae2 <= c && c <= 0xae3) || (0xae6 <= c && c <= 0xaef)),
{
    if c < 0xa51 {
        if c < 0xa01 {
            if c < 0x9e2 {
                (0x9cb <= c && c <= 0x9cd) || c == 0x9d7
            } else {
                (0x9e2 <= c && c <= 0x9e3) || (0x9e6 <= c && c <= 0x9ef) || c == 0x9fe
            }
        } else {
            if c < 0xa3e {
                (0xa01 <= c && c <= 0xa03) || c == 0xa3c
            } else {
                (0xa3e <= c && c <= 0xa42) || (0xa47 <= c && c <= 0xa48)
                    || (0xa4b <= c && c <= 0xa4d)
            }
        }
    } else {
        if c < 0xabe {
            if c < 0xa75 {
                c == 0xa51 || (0xa66 <= c && c <= 0xa71)
            } else {
                c == 0xa75 || (0xa81 <= c && c <= 0xa83) || c == 0xabc
            }
        } else {
            if c < 0xacb {
                (0xabe <= c && c <= 0xac5) || (0xac7 <= c && c <= 0xac9)
            } else {
                (0xacb <= c && c <= 0xacd) || (0xae2 <= c && c <= 0xae3)
                    || (0xae6 <= c && c <= 0xaef)
            }
        }
    }
}

/// Code points that can continue an identifier but not start one, from U+0AFA to U+0C4D.
#[verifier::allow_in_spec]
fn part_0afa(c: u32) -> bool
    returns
        ((0xafa <= c && c <= 0xaff) || (0xb01 <= c && c <= 0xb03) || c == 0xb3c
        || (0xb3e <= c && c <= 0xb44) || (0xb47 <= c && c <= 0xb48)
        || (0xb4b <= c && c <= 0xb4d) || (0xb55 <= c && c <= 0xb57)
        || (0xb62 <= c && c <= 0xb63) || (0xb66 <= c && c <= 0xb6f) || c == 0xb82
        || (0xbbe <= c && c <= 0xbc2) || (0xbc6 <= c && c <= 0xbc8)
        || (0xbca <= c && c <= 0xbcd) || c == 0xbd7 || (0xbe6 <= c && c <= 0xbef)
        || (0xc00 <= c && c <= 0xc04) || c == 0xc3c || (0xc3e <= c && c <= 0xc44)
        || (0xc46 <= c && c <= 0xc48) || (0xc4a <= c && c <= 0xc4d)),
{
    if c < 0xbbe {
        if c < 0xb4b {
            if c < 0xb3c {
                (0xafa <= c && c <= 0xaff) || (0xb01 <= c && c <= 0xb03)
            } else {
                c == 0xb3c || (0xb3e <= c && c <= 0xb44) || (0xb47 <= c && c <= 0xb48)
            }
        } else {
            if c < 0xb62 {
                (0xb4b <= c && c <= 0xb4d) || (0xb55 <= c && c <= 0xb57)
            } else {
                (0xb62 <= c && c <= 0xb63) || (0xb66 <= c && c <= 0xb6f) || c == 0xb82
            }
        }
    } else {
        if c < 0xc00 {
            if c < 0xbca {
                (0xbbe <= c && c <= 0xbc2) || (0xbc6 <= c && c <= 0xbc8)
            } else {
                (0xbca <= c && c <= 0xbcd) || c == 0xbd7 || (0xbe6 <= c && c <= 0xbef)
            }
        } else {
            if c < 0xc3e {
                (0xc00 <= c && c <= 0xc04) || c == 0xc3c
            } else {
                (0xc3e <= c && c <= 0xc44) || (0xc46 <= c && c <= 0xc48)
                    || (0xc4a <= c && c <= 0xc4d)
            }
        }
    }
}

/// Code points that can continue an identifier but not start one, from U+0C55 to U+0D83.
#[verifier::allow_in_spec]
fn part_0c55(c: u32) -> bool
    returns
        ((0xc55 <= c && c <= 0xc56) || (0xc62 <= c && c <= 0xc63) || (0xc66 <= c && c <= 0xc6f)
        || (0xc81 <= c && c <= 0xc83) || c == 0xcbc || (0xcbe <= c && c <= 0xcc4)
        || (0xcc6 <= c && c <= 0xcc8) || (0xcca <= c && c <= 0xccd)
        || (0xcd5 <= c && c <= 0xcd6) || (0xce2 <= c && c <= 0xce3)
        || (0xce6 <= c && c <= 0xcef) || (0xd00 <= c && c <= 0xd03)
        || (0xd3b <= c && c <= 0xd3c) || (0xd3e <= c && c <= 0xd44)
        || (0xd46 <= c && c <= 0xd48) || (0xd4a <= c && c <= 0xd4d) || c == 0xd57
        || (0xd62 <= c && c <= 0xd63) || (0xd66 <= c && c <= 0xd6f)
        || (0xd81 <= c && c <= 0xd83)),
{
    if c < 0xce6 {
        if c < 0xcbe {
            if c < 0xc66 {
                (0xc55 <= c && c <= 0xc56) || (0xc62 <= c && c <= 0xc63)
            } else {
                (0xc66 <= c && c <= 0xc6f) || (0xc81 <= c && c <= 0xc83) || c == 0xcbc
            }
        } else {
            if c < 0xcca {
                (0xcbe <= c && c <= 0xcc4) || (0xcc6 <= c && c <= 0xcc8)
            } else {
                (0xcca <= c && c <= 0xccd) || (0xcd5 <= c && c <= 0xcd6)
                    || (0xce2 <= c && c <= 0xce3)
            }
        }
    } else {
        if c < 0xd4a {
            if c < 0xd3b {
                (0xce6 <= c && c <= 0xcef) || (0xd00 <= c && c <= 0xd03)
            } else {
                (0xd3b <= c && c <= 0xd3c) || (0xd3e <= c && c <= 0xd44)
                    || (0xd46 <= c && c <= 0xd48)
            }
        } else {
            if c < 0xd62 {
                (0xd4a <= c && c <= 0xd4d) || c == 0xd57
            } else {
                (0xd62 <= c && c <= 0xd63) || (0xd66 <= c && c <= 0xd6f)
                    || (0xd81 <= c && c <= 0xd83)
            }
        }
    }
}

/// Code points that can continue an identifier but not start one, from U+0DCA to U+0F3F.
#[verifier::allow_in_spec]
fn part_0dca(c: u32) -> bool
    returns
        (c == 0xdca || (0xdcf <= c && c <= 0xdd4) || c == 0xdd6 || (0xdd8 <= c && c <= 0xddf)
        || (0xde6 <= c && c <= 0xdef) || (0xdf2 <= c && c <= 0xdf3) || c == 0xe31
        || (0xe34 <= c && c <= 0xe3a) || (0xe47 <= c && c <= 0xe4e)
        || (0xe50 <= c && c <= 0xe59) || c == 0xeb1 || (0xeb4 <= c && c <= 0xebc)
        || (0xec8 <= c && c <= 0xecd) || (0xed0 <= c && c <= 0xed9)
        || (0xf18 <= c && c <= 0xf19) || (0xf20 <= c && c <= 0xf29) || c == 0xf35 || c == 0xf37
        || c == 0xf39 || (0xf3e <= c && c <= 0xf3f)),
{
    if c < 0xeb1 {
        if c < 0xdf2 {
            if c < 0xdd6 {
                c == 0xdca || (0xdcf <= c && c <= 0xdd4)
            } else {
                c == 0xdd6 || (0xdd8 <= c && c <= 0xddf) || (0xde6 <= c && c <= 0xdef)
            }
        } else {
            if c < 0xe34 {
                (0xdf2 <= c && c <= 0xdf3) || c == 0xe31
            } else {
                (0xe34 <= c && c <= 0xe3a) || (0xe47 <= c && c <= 0xe4e)
                    || (0xe50 <= c && c <= 0xe59)
            }
        }
    } else {
        if c < 0xf20 {
            if c < 0xec8 {
                c == 0xeb1 || (0xeb4 <= c && c <= 0xebc)
            } else {
                (0xec8 <= c && c <= 0xecd) || (0xed0 <= c && c <= 0xed9)
                    || (0xf18 <= c && c <= 0xf19)
            }
        } else {
            if c < 0xf37 {
                (0xf20 <= c && c <= 0xf29) || c == 0xf35
            } else {
                c == 0xf37 || c == 0xf39 || (0xf3e <= c && c <= 0xf3f)
            }
        }
    }
}

/// Code points that can continue an identifier but not start one, from U+0F71 to U+1773.
#[verifier::allow_in_spec]
fn part_0f71(c: u32) -> bool
    returns
        ((0xf71 <= c && c <= 0xf84) || (0xf86 <= c && c <= 0xf87) || (0xf8d <= c && c <= 0xf97)
        || (0xf99 <= c && c <= 0xfbc) || c == 0xfc6 || (0x102b <= c && c <= 0x103e)
        || (0x1040 <= c && c <= 0x1049) || (0x1056 <= c && c <= 0x1059)
        || (0x105e <= c && c <= 0x1060) || (0x1062 <= c && c <= 0x1064)
        || (0x1067 <= c && c <= 0x106d) || (0x1071 <= c && c <= 0x1074)
        || (0x1082 <= c && c <= 0x108d) || (0x108f <= c && c <= 0x109d)
        || (0x135d <= c && c <= 0x135f) || (0x1369 <= c && c <= 0x1371)
        || (0x1712 <= c && c <= 0x1715) || (0x1732 <= c && c <= 0x1734)
        || (0x1752 <= c && c <= 0x1753) || (0x1772 <= c && c <= 0x1773)),
{
    if c < 0x1067 {
        if c < 0x102b {
            if c < 0xf8d {
                (0xf71 <= c && c <= 0xf84) || (0xf86 <= c && c <= 0xf87)
            } else {
                (0xf8d <= c && c <= 0xf97) || (0xf99 <= c && c <= 0xfbc) || c == 0xfc6
            }
        } else {
            if c < 0x1056 {
                (0x102b <= c && c <= 0x103e) || (0x1040 <= c && c <= 0x1049)
            } else {
                (0x1056 <= c && c <= 0x1059) || (0x105e <= c && c <= 0x1060)
                    || (0x1062 <= c && c <= 0x1064)
            }
        }
    } else {
        if c < 0x1369 {
            if c < 0x1082 {
                (0x1067 <= c && c <= 0x106d) || (0x1071 <= c && c <= 0x1074)
            } else {
                (0x1082 <= c && c <= 0x108d) || (0x108f <= c && c <= 0x109d)
                    || (0x135d <= c && c <= 0x135f)
            }
        } else {
            if c < 0x1732 {
                (0x1369 <= c && c <= 0x1371) || (0x1712 <= c && c <= 0x1715)
            } else {
                (0x1732 <= c && c <= 0x1734) || (0x1752 <= c && c <= 0x1753)
                    || (0x1772 <= c && c <= 0x1773)
            }
        }
    }
}

/// Code points that can continue an identifier but not start one, from U+17B4 to U+1B59.
#[verifier::allow_in_spec]
fn part_17b4(c: u32) -> bool
    returns
        ((0x17b4 <= c && c <= 0x17d3) || c == 0x17dd || (0x17e0 <= c && c <= 0x17e9)
        || (0x180b <= c && c <= 0x180d) || (0x180f <= c && c <= 0x1819) || c == 0x18a9
        || (0x1920 <= c && c <= 0x192b) || (0x1930 <= c && c <= 0x193b)
        || (0x1946 <= c && c <= 0x194f) || (0x19d0 <= c && c <= 0x19da)
        || (0x1a17 <= c && c <= 0x1a1b) || (0x1a55 <= c && c <= 0x1a5e)
        || (0x1a60 <= c && c <= 0x1a7c) || (0x1a7f <= c && c <= 0x1a89)
        || (0x1a90 <= c && c <= 0x1a99) || (0x1ab0 <= c && c <= 0x1abd)
        || (0x1abf <= c && c <= 0x1ace) || (0x1b00 <= c && c <= 0x1b04)
        || (0x1b34 <= c && c <= 0x1b44) || (0x1b50 <= c && c <= 0x1b59)),
{
    if c < 0x1a17 {
        if c < 0x18a9 {
            if c < 0x17e0 {
                (0x17b4 <= c && c <= 0x17d3) || c == 0x17dd
            } else {
                (0x17e0 <= c && c <= 0x17e9) || (0x180b <= c && c <= 0x180d)
                    || (0x180f <= c && c <= 0x1819)
            }
        } else {
            if c < 0x1930 {
                c == 0x18a9 || (0x1920 <= c && c <= 0x192b)
            } else {
                (0x1930 <= c && c <= 0x193b) || (0x1946 <= c && c <= 0x194f)
                    || (0x19d0 <= c && c <= 0x19da)
            }
        }
    } else {
        if c < 0x1ab0 {
            if c < 0x1a60 {
                (0x1a17 <= c && c <= 0x1a1b) || (0x1a55 <= c && c <= 0x1a5e)
            } else {
                (0x1a60 <= c && c <= 0x1a7c) || (0x1a7f <= c && c <= 0x1a89)
                    || (0x1a90 <= c && c <= 0x1a99)
            }
        } else {
            if c < 0x1b00 {
                (0x1ab0 <= c && c <= 0x1abd) || (0x1abf <= c && c <= 0x1ace)
            } else {
                (0x1b00 <= c && c <= 0x1b04) || (0x1b34 <= c && c <= 0x1b44)
                    || (0x1b50 <= c && c <= 0x1b59)
            }
        }
    }
}

/// Code points that can continue an identifier but not start one, from U+1B6B to U+20F0.
#[verifier::allow_in_spec]
fn part_1b6b(c: u32) -> bool
    returns
        ((0x1b6b <= c && c <= 0x1b73) || (0x1b80 <= c && c <= 0x1b82)
        || (0x1ba1 <= c && c <= 0x1bad) || (0x1bb0 <= c && c <= 0x1bb9)
        || (0x1be6 <= c && c <= 0x1bf3) || (0x1c24 <= c && c <= 0x1c37)
        || (0x1c40 <= c && c <= 0x1c49) || (0x1c50 <= c && c <= 0x1c59)
        || (0x1cd0 <= c && c <= 0x1cd2) || (0x1cd4 <= c && c <= 0x1ce8) || c == 0x1ced
        || c == 0x1cf4 || (0x1cf7 <= c && c <= 0x1cf9) || (0x1dc0 <= c && c <= 0x1dff)
        || (0x200c <= c && c <= 0x200d) || (0x203f <= c && c <= 0x2040) || c == 0x2054
        || (0x20d0 <= c && c <= 0x20dc) || c == 0x20e1 || (0x20e5 <= c && c <= 0x20f0)),
{
    if c < 0x1ced {
        if c < 0x1c24 {
            if c < 0x1ba1 {
                (0x1b6b <= c && c <= 0x1b73) || (0x1b80 <= c && c <= 0x1b82)
            } else {
                (0x1ba1 <= c && c <= 0x1bad) || (0x1bb0 <= c && c <= 0x1bb9)
                    || (0x1be6 <= c && c <= 0x1bf3)
            }
        } else {
            if c < 0x1c50 {
                (0x1c24 <= c && c <= 0x1c37) || (0x1c40 <= c && c <= 0x1c49)
            } else {
                (0x1c50 <= c && c <= 0x1c59) || (0x1cd0 <= c && c <= 0x1cd2)
                    || (0x1cd4 <= c && c <= 0x1ce8)
            }
        }
    } else {
        if c < 0x203f {
            if c < 0x1cf7 {
                c == 0x1ced || c == 0x1cf4
            } else {
                (0x1cf7 <= c && c <= 0x1cf9) || (0x1dc0 <= c && c <= 0x1dff)
                    || (0x200c <= c && c <= 0x200d)
            }
        } else {
            if c < 0x20d0 {
                (0x203f <= c && c <= 0x2040) || c == 0x2054
            } else {
                (0x20d0 <= c && c <= 0x20dc) || c == 0x20e1 || (0x20e5 <= c && c <= 0x20f0)
            }
        }
    }
}

/// Code points that can continue an identifier but not start one, from U+2CEF to U+A909.
#[verifier::allow_in_spec]
fn part_2cef(c: u32) -> bool
    returns
        ((0x2cef <= c && c <= 0x2cf1) || c == 0x2d7f || (0x2de0 <= c && c <= 0x2dff)
        || (0x302a <= c && c <= 0x302f) || (0x3099 <= c && c <= 0x309a)
        || (0xa620 <= c && c <= 0xa629) || c == 0xa66f || (0xa674 <= c && c <= 0xa67d)
        || (0xa69e <= c && c <= 0xa69f) || (0xa6f0 <= c && c <= 0xa6f1) || c == 0xa802
        || c == 0xa806 || c == 0xa80b || (0xa823 <= c && c <= 0xa827) || c == 0xa82c
        || (0xa880 <= c && c <= 0xa881) || (0xa8b4 <= c && c <= 0xa8c5)
        || (0xa8d0 <= c && c <= 0xa8d9) || (0xa8e0 <= c && c <= 0xa8f1)
        || (0xa8ff <= c && c <= 0xa909)),
{
    if c < 0xa802 {
        if c < 0xa620 {
            if c < 0x2de0 {
                (0x2cef <= c && c <= 0x2cf1) || c == 0x2d7f
            } else {
                (0x2de0 <= c && c <= 0x2dff) || (0x302a <= c && c <= 0x302f)
                    || (0x3099 <= c && c <= 0x309a)
            }
        } else {
            if c < 0xa674 {
                (0xa620 <= c && c <= 0xa629) || c == 0xa66f
            } else {
                (0xa674 <= c && c <= 0xa67d) || (0xa69e <= c && c <= 0xa69f)
                    || (0xa6f0 <= c && c <= 0xa6f1)
            }
        }
    } else {
        if c < 0xa880 {
            if c < 0xa80b {
                c == 0xa802 || c == 0xa806
            } else {
                c == 0xa80b || (0xa823 <= c && c <= 0xa827) || c == 0xa82c
            }
        } else {
            if c < 0xa8d0 {
                (0xa880 <= c && c <= 0xa881) || (0xa8b4 <= c && c <= 0xa8c5)
            } else {
                (0xa8d0 <= c && c <= 0xa8d9) || (0xa8e0 <= c && c <= 0xa8f1)
                    || (0xa8ff <= c && c <= 0xa909)
            }
        }
    }
}

/// Code points that can continue an identifier but not start one, from U+A926 to U+ABEA.
#[verifier::allow_in_spec]
fn part_a926(c: u32) -> bool
    returns
        ((0xa926 <= c && c <= 0xa92d) || (0xa947 <= c && c <= 0xa953)
        || (0xa980 <= c && c <= 0xa983) || (0xa9b3 <= c && c <= 0xa9c0)
        || (0xa9d0 <= c && c <= 0xa9d9) || c == 0xa9e5 || (0xa9f0 <= c && c <= 0xa9f9)
        || (0xaa29 <= c && c <= 0xaa36) || c == 0xaa43 || (0xaa4c <= c && c <= 0xaa4d)
        || (0xaa50 <= c && c <= 0xaa59) || (0xaa7b <= c && c <= 0xaa7d) || c == 0xaab0
        || (0xaab2 <= c && c <= 0xaab4) || (0xaab7 <= c && c <= 0xaab8)
        || (0xaabe <= c && c <= 0xaabf) || c == 0xaac1 || (0xaaeb <= c && c <= 0xaaef)
        || (0xaaf5 <= c && c <= 0xaaf6) || (0xabe3 <= c && c <= 0xabea)),
{
    if c < 0xaa50 {
        if c < 0xa9e5 {
            if c < 0xa980 {
                (0xa926 <= c && c <= 0xa92d) || (0xa947 <= c && c <= 0xa953)
            } else {
                (0xa980 <= c && c <= 0xa983) || (0xa9b3 <= c && c <= 0xa9c0)
                    || (0xa9d0 <= c && c <= 0xa9d9)
            }
        } else {
            if c < 0xaa29 {
                c == 0xa9e5 || (0xa9f0 <= c && c <= 0xa9f9)
            } else {
                (0xaa29 <= c && c <= 0xaa36) || c == 0xaa43 || (0xaa4c <= c && c <= 0xaa4d)
            }
        }
    } else {
        if c < 0xaabe {
            if c < 0xaab0 {
                (0xaa50 <= c && c <= 0xaa59) || (0xaa7b <= c && c <= 0xaa7d)
            } else {
                c == 0xaab0 || (0xaab2 <= c && c <= 0xaab4) || (0xaab7 <= c && c <= 0xaab8)
            }
        } else {
            if c < 0xaaeb {
                (0xaabe <= c && c <= 0xaabf) || c == 0xaac1
            } else {
                (0xaaeb <= c && c <= 0xaaef) || (0xaaf5 <= c && c <= 0xaaf6)
                    || (0xabe3 <= c && c <= 0xabea)
            }
        }
    }
}

/// Code points that can continue an identifier but not start one, from U+ABEC to U+10D27.
#[verifier::allow_in_spec]
fn part_abec(c: u32) -> bool
    returns
        ((0xabec <= c && c <= 0xabed) || (0xabf0 <= c && c <= 0xabf9) || c == 0xfb1e
        || (0xfe00 <= c && c <= 0xfe0f) || (0xfe20 <= c && c <= 0xfe2f)
        || (0xfe33 <= c && c <= 0xfe34) || (0xfe4d <= c && c <= 0xfe4f)
        || (0xff10 <= c && c <= 0xff19) || c == 0xff3f || c == 0x101fd || c == 0x102e0
        || (0x10376 <= c && c <= 0x1037a) || (0x104a0 <= c && c <= 0x104a9)
        || (0x10a01 <= c && c <= 0x10a03) || (0x10a05 <= c && c <= 0x10a06)
        || (0x10a0c <= c && c <= 0x10a0f) || (0x10a38 <= c && c <= 0x10a3a) || c == 0x10a3f
        || (0x10ae5 <= c && c <= 0x10ae6) || (0x10d24 <= c && c <= 0x10d27)),
{
    if c < 0x102e0 {
        if c < 0xfe33 {
            if c < 0xfb1e {
                (0xabec <= c && c <= 0xabed) || (0xabf0 <= c && c <= 0xabf9)
            } else {
                c == 0xfb1e || (0xfe00 <= c && c <= 0xfe0f) || (0xfe20 <= c && c <= 0xfe2f)
            }
        } else {
            if c < 0xff10 {
                (0xfe33 <= c && c <= 0xfe34) || (0xfe4d <= c && c <= 0xfe4f)
            } else {
                (0xff10 <= c && c <= 0xff19) || c == 0xff3f || c == 0x101fd
            }
        }
    } else {
        if c < 0x10a0c {
            if c < 0x104a0 {
                c == 0x102e0 || (0x10376 <= c && c <= 0x1037a)
            } else {
                (0x104a0 <= c && c <= 0x104a9) || (0x10a01 <= c && c <= 0x10a03)
                    || (0x10a05 <= c && c <= 0x10a06)
            }
        } else {
            if c < 0x10a3f {
                (0x10a0c <= c && c <= 0x10a0f) || (0x10a38 <= c && c <= 0x10a3a)
            } else {
                c == 0x10a3f || (0x10ae5 <= c && c <= 0x10ae6)
                    || (0x10d24 <= c && c <= 0x10d27)
            }
        }
    }
}

/// Code points that can continue an identifier but not start one, from U+10D30 to U+111CC.
#[verifier::allow_in_spec]
fn part_10d30(c: u32) -> bool
    returns
        ((0x10d30 <= c && c <= 0x10d39) || (0x10eab <= c && c <= 0x10eac)
        || (0x10f46 <= c && c <= 0x10f50) || (0x10f82 <= c && c <= 0x10f85)
        || (0x11000 <= c && c <= 0x11002) || (0x11038 <= c && c <= 0x11046)
        || (0x11066 <= c && c <= 0x11070) || (0x11073 <= c && c <= 0x11074)
        || (0x1107f <= c && c <= 0x11082) || (0x110b0 <= c && c <= 0x110ba) || c == 0x110c2
        || (0x110f0 <= c && c <= 0x110f9) || (0x11100 <= c && c <= 0x11102)
        || (0x11127 <= c && c <= 0x11134) || (0x11136 <= c && c <= 0x1113f)
        || (0x11145 <= c && c <= 0x11146) || c == 0x11173 || (0x11180 <= c && c <= 0x11182)
        || (0x111b3 <= c && c <= 0x111c0) || (0x111c9 <= c && c <= 0x111cc)),
{
    if c < 0x110c2 {
        if c < 0x11038 {
            if c < 0x10f46 {
                (0x10d30 <= c && c <= 0x10d39) || (0x10eab <= c && c <= 0x10eac)
            } else {
                (0x10f46 <= c && c <= 0x10f50) || (0x10f82 <= c && c <= 0x10f85)
                    || (0x11000 <= c && c <= 0x11002)
            }
        } else {
            if c < 0x11073 {
                (0x11038 <= c && c <= 0x11046) || (0x11066 <= c && c <= 0x11070)
            } else {
                (0x11073 <= c && c <= 0x11074) || (0x1107f <= c && c <= 0x11082)
                    || (0x110b0 <= c && c <= 0x110ba)
            }
        }
    } else {
        if c < 0x11145 {
            if c < 0x11100 {
                c == 0x110c2 || (0x110f0 <= c && c <= 0x110f9)
            } else {
                (0x11100 <= c && c <= 0x11102) || (0x11127 <= c && c <= 0x11134)
                    || (0x11136 <= c && c <= 0x1113f)
            }
        } else {
            if c < 0x11180 {
                (0x11145 <= c && c <= 0x11146) || c == 0x11173
            } else {
                (0x11180 <= c && c <= 0x11182) || (0x111b3 <= c && c <= 0x111c0)
                    || (0x111c9 <= c && c <= 0x111cc)
            }
        }
    }
}

/// Code points that can continue an identifier but not start one, from U+111CE to U+115B5.
#[verifier::allow_in_spec]
fn part_111ce(c: u32) -> bool
    returns
        ((0x111ce <= c && c <= 0x111d9) || (0x1122c <= c && c <= 0x11237) || c == 0x1123e
        || (0x112df <= c && c <= 0x112ea) || (0x112f0 <= c && c <= 0x112f9)
        || (0x11300 <= c && c <= 0x11303) || (0x1133b <= c && c <= 0x1133c)
        || (0x1133e <= c && c <= 0x11344) || (0x11347 <= c && c <= 0x11348)
        || (0x1134b <= c && c <= 0x1134d) || c == 0x11357 || (0x11362 <= c && c <= 0x11363)
        || (0x11366 <= c && c <= 0x1136c) || (0x11370 <= c && c <= 0x11374)
        || (0x11435 <= c && c <= 0x11446) || (0x11450 <= c && c <= 0x11459) || c == 0x1145e
        || (0x114b0 <= c && c <= 0x114c3) || (0x114d0 <= c && c <= 0x114d9)
        || (0x115af <= c && c <= 0x115b5)),
{
    if c < 0x11357 {
        if c < 0x11300 {
            if c < 0x1123e {
                (0x111ce <= c && c <= 0x111d9) || (0x1122c <= c && c <= 0x11237)
            } else {
                c == 0x1123e || (0x112df <= c && c <= 0x112ea)
                    || (0x112f0 <= c && c <= 0x112f9)
            }
        } else {
            if c < 0x1133e {
                (0x11300 <= c && c <= 0x11303) || (0x1133b <= c && c <= 0x1133c)
            } else {
                (0x1133e <= c && c <= 0x11344) || (0x11347 <= c && c <= 0x11348)
                    || (0x1134b <= c && c <= 0x1134d)
            }
        }
    } else {
        if c < 0x11450 {
            if c < 0x11366 {
                c == 0x11357 || (0x11362 <= c && c <= 0x11363)
            } else {
                (0x11366 <= c && c <= 0x1136c) || (0x11370 <= c && c <= 0x11374)
                    || (0x11435 <= c && c <= 0x11446)
            }
        } else {
            if c < 0x114b0 {
                (0x11450 <= c && c <= 0x11459) || c == 0x1145e
            } else {
                (0x114b0 <= c && c <= 0x114c3) || (0x114d0 <= c && c <= 0x114d9)
                    || (0x115af <= c && c <= 0x115b5)
            }
        }
    }
}

/// Code points that can continue an identifier but not start one, from U+115B8 to U+11A0A.
#[verifier::allow_in_spec]
fn part_115b8(c: u32) -> bool
    returns
        ((0x115b8 <= c && c <= 0x115c0) || (0x115dc <= c && c <= 0x115dd)
        || (0x11630 <= c && c <= 0x11640) || (0x11650 <= c && c <= 0x11659)
        || (0x116ab <= c && c <= 0x116b7) || (0x116c0 <= c && c <= 0x116c9)
        || (0x1171d <= c && c <= 0x1172b) || (0x11730 <= c && c <= 0x11739)
        || (0x1182c <= c && c <= 0x1183a) || (0x118e0 <= c && c <= 0x118e9)
        || (0x11930 <= c && c <= 0x11935) || (0x11937 <= c && c <= 0x11938)
        || (0x1193b <= c && c <= 0x1193e) || c == 0x11940 || (0x11942 <= c && c <= 0x11943)
        || (0x11950 <= c && c <= 0x11959) || (0x119d1 <= c && c <= 0x119d7)
        || (0x119da <= c && c <= 0x119e0) || c == 0x119e4 || (0x11a01 <= c && c <= 0x11a0a)),
{
    if c < 0x11930 {
        if c < 0x116c0 {
            if c < 0x11630 {
                (0x115b8 <= c && c <= 0x115c0) || (0x115dc <= c && c <= 0x115dd)
            } else {
                (0x11630 <= c && c <= 0x11640) || (0x11650 <= c && c <= 0x11659)
                    || (0x116ab <= c && c <= 0x116b7)
            }
        } else {
            if c < 0x11730 {
                (0x116c0 <= c && c <= 0x116c9) || (0x1171d <= c && c <= 0x1172b)
            } else {
                (0x11730 <= c && c <= 0x11739) || (0x1182c <= c && c <= 0x1183a)
                    || (0x118e0 <= c && c <= 0x118e9)
            }
        }
    } else {
        if c < 0x11950 {
            if c < 0x1193b {
                (0x11930 <= c && c <= 0x11935) || (0x11937 <= c && c <= 0x11938)
            } else {
                (0x1193b <= c && c <= 0x1193e) || c == 0x11940
                    || (0x11942 <= c && c <= 0x11943)
            }
        } else {
            if c < 0x119da {
                (0x11950 <= c && c <= 0x11959) || (0x119d1 <= c && c <= 0x119d7)
            } else {
                (0x119da <= c && c <= 0x119e0) || c == 0x119e4
                    || (0x11a01 <= c && c <= 0x11a0a)
            }
        }
    }
}

/// Code points that can continue an identifier but not start one, from U+11A33 to U+11DA9.
#[verifier::allow_in_spec]
fn part_11a33(c: u32) -> bool
    returns
        ((0x11a33 <= c && c <= 0x11a39) || (0x11a3b <= c && c <= 0x11a3e) || c == 0x11a47
        || (0x11a51 <= c && c <= 0x11a5b) || (0x11a8a <= c && c <= 0x11a99)
        || (0x11c2f <= c && c <= 0x11c36) || (0x11c38 <= c && c <= 0x11c3f)
        || (0x11c50 <= c && c <= 0x11c59) || (0x11c92 <= c && c <= 0x11ca7)
        || (0x11ca9 <= c && c <= 0x11cb6) || (0x11d31 <= c && c <= 0x11d36) || c == 0x11d3a
        || (0x11d3c <= c && c <= 0x11d3d) || (0x11d3f <= c && c <= 0x11d45) || c == 0x11d47
        || (0x11d50 <= c && c <= 0x11d59) || (0x11d8a <= c && c <= 0x11d8e)
        || (0x11d90 <= c && c <= 0x11d91) || (0x11d93 <= c && c <= 0x11d97)
        || (0x11da0 <= c && c <= 0x11da9)),
{
    if c < 0x11d31 {
        if c < 0x11c2f {
            if c < 0x11a47 {
                (0x11a33 <= c && c <= 0x11a39) || (0x11a3b <= c && c <= 0x11a3e)
            } else {
                c == 0x11a47 || (0x11a51 <= c && c <= 0x11a5b)
                    || (0x11a8a <= c && c <= 0x11a99)
            }
        } else {
            if c < 0x11c50 {
                (0x11c2f <= c && c <= 0x11c36) || (0x11c38 <= c && c <= 0x11c3f)
            } else {
                (0x11c50 <= c && c <= 0x11c59) || (0x11c92 <= c && c <= 0x11ca7)
                    || (0x11ca9 <= c && c <= 0x11cb6)
            }
        }
    } else {
        if c < 0x11d50 {
            if c < 0x11d3c {
                (0x11d31 <= c && c <= 0x11d36) || c == 0x11d3a
            } else {
                (0x11d3c <= c && c <= 0x11d3d) || (0x11d3f <= c && c <= 0x11d45)
                    || c == 0x11d47
            }
        } else {
            if c < 0x11d90 {
                (0x11d50 <= c && c <= 0x11d59) || (0x11d8a <= c && c <= 0x11d8e)
            } else {
                (0x11d90 <= c && c <= 0x11d91) || (0x11d93 <= c && c <= 0x11d97)
                    || (0x11da0 <= c && c <= 0x11da9)
            }
        }
    }
}

/// Code points that can continue an identifier but not start one, from U+11EF3 to U+1D244.
#[verifier::allow_in_spec]
fn part_11ef3(c: u32) -> bool
    returns
        ((0x11ef3 <= c && c <= 0x11ef6) || (0x16a60 <= c && c <= 0x16a69)
        || (0x16ac0 <= c && c <= 0x16ac9) || (0x16af0 <= c && c <= 0x16af4)
        || (0x16b30 <= c && c <= 0x16b36) || (0x16b50 <= c && c <= 0x16b59) || c == 0x16f4f
        || (0x16f51 <= c && c <= 0x16f87) || (0x16f8f <= c && c <= 0x16f92) || c == 0x16fe4
        || (0x16ff0 <= c && c <= 0x16ff1) || (0x1bc9d <= c && c <= 0x1bc9e)
        || (0x1cf00 <= c && c <= 0x1cf2d) || (0x1cf30 <= c && c <= 0x1cf46)
        || (0x1d165 <= c && c <= 0x1d169) || (0x1d16d <= c && c <= 0x1d172)
        || (0x1d17b <= c && c <= 0x1d182) || (0x1d185 <= c && c <= 0x1d18b)
        || (0x1d1aa <= c && c <= 0x1d1ad) || (0x1d242 <= c && c <= 0x1d244)),
{
    if c < 0x16ff0 {
        if c < 0x16b50 {
            if c < 0x16ac0 {
                (0x11ef3 <= c && c <= 0x11ef6) || (0x16a60 <= c && c <= 0x16a69)
            } else {
                (0x16ac0 <= c && c <= 0x16ac9) || (0x16af0 <= c && c <= 0x16af4)
                    || (0x16b30 <= c && c <= 0x16b36)
            }
        } else {
            if c < 0x16f51 {
                (0x16b50 <= c && c <= 0x16b59) || c == 0x16f4f
            } else {
                (0x16f51 <= c && c <= 0x16f87) || (0x16f8f <= c && c <= 0x16f92)
                    || c == 0x16fe4
            }
        }
    } else {
        if c < 0x1d16d {
            if c < 0x1cf00 {
                (0x16ff0 <= c && c <= 0x16ff1) || (0x1bc9d <= c && c <= 0x1bc9e)
            } else {
                (0x1cf00 <= c && c <= 0x1cf2d) || (0x1cf30 <= c && c <= 0x1cf46)
                    || (0x1d165 <= c && c <= 0x1d169)
            }
        } else {
            if c < 0x1d185 {
                (0x1d16d <= c && c <= 0x1d172) || (0x1d17b <= c && c <= 0x1d182)
            } else {
                (0x1d185 <= c && c <= 0x1d18b) || (0x1d1aa <= c && c <= 0x1d1ad)
                    || (0x1d242 <= c && c <= 0x1d244)
            }
        }
    }
}

/// Code points that can continue an identifier but not start one, from U+1D7CE to U+1FBF9.
#[verifier::allow_in_spec]
fn part_1d7ce(c: u32) -> bool
    returns
        ((0x1d7ce <= c && c <= 0x1d7ff) || (0x1da00 <= c && c <= 0x1da36)
        || (0x1da3b <= c && c <= 0x1da6c) || c == 0x1da75 || c == 0x1da84
        || (0x1da9b <= c && c <= 0x1da9f) || (0x1daa1 <= c && c <= 0x1daaf)
        || (0x1e000 <= c && c <= 0x1e006) || (0x1e008 <= c && c <= 0x1e018)
        || (0x1e01b <= c && c <= 0x1e021) || (0x1e023 <= c && c <= 0x1e024)
        || (0x1e026 <= c && c <= 0x1e02a) || (0x1e130 <= c && c <= 0x1e136)
        || (0x1e140 <= c && c <= 0x1e149) || c == 0x1e2ae || (0x1e2ec <= c && c <= 0x1e2f9)
        || (0x1e8d0 <= c && c <= 0x1e8d6) || (0x1e944 <= c && c <= 0x1e94a)
        || (0x1e950 <= c && c <= 0x1e959) || (0x1fbf0 <= c && c <= 0x1fbf9)),
{
    if c < 0x1e023 {
        if c < 0x1da9b {
            if c < 0x1da3b {
                (0x1d7ce <= c && c <= 0x1d7ff) || (0x1da00 <= c && c <= 0x1da36)
            } else {
                (0x1da3b <= c && c <= 0x1da6c) || c == 0x1da75 || c == 0x1da84
            }
        } else {
            if c < 0x1e000 {
                (0x1da9b <= c && c <= 0x1da9f) || (0x1daa1 <= c && c <= 0x1daaf)
            } else {
                (0x1e000 <= c && c <= 0x1e006) || (0x1e008 <= c && c <= 0x1e018)
                    || (0x1e01b <= c && c <= 0x1e021)
            }
        }
    } else {
        if c < 0x1e2ec {
            if c < 0x1e130 {
                (0x1e023 <= c && c <= 0x1e024) || (0x1e026 <= c && c <= 0x1e02a)
            } else {
                (0x1e130 <= c && c <= 0x1e136) || (0x1e140 <= c && c <= 0x1e149)
                    || c == 0x1e2ae
            }
        } else {
            if c < 0x1e944 {
                (0x1e2ec <= c && c <= 0x1e2f9) || (0x1e8d0 <= c && c <= 0x1e8d6)
            } else {
                (0x1e944 <= c && c <= 0x1e94a) || (0x1e950 <= c && c <= 0x1e959)
                    || (0x1fbf0 <= c && c <= 0x1fbf9)
            }
        }
    }
}

/// Code points that can continue an identifier but not start one, from U+E0100 to U+E01EF.
#[verifier::allow_in_spec]
fn part_e0100(c: u32) -> bool
    returns
        ((0xe0100 <= c && c <= 0xe01ef)),
{
    (0xe0100 <= c && c <= 0xe01ef)
}

} // verus!
