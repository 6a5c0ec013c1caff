//! Opcode names tell variants apart: two opcodes have the same name exactly when they
//! are the same variant.
use vstd::prelude::*;

use super::{opcode_name, LpsOpCode};

verus! {

/// The position of an opcode's variant in the declaration of `LpsOpCode`, whatever
/// its payload; two opcodes have the same variant exactly when their positions agree.
pub open spec fn opcode_index(op: LpsOpCode) -> int {
    match op {
        LpsOpCode::Push(_) => 0,
        LpsOpCode::PushInt32(_) => 1,
        LpsOpCode::Dup1 => 2,
        LpsOpCode::Dup2 => 3,
        LpsOpCode::Dup3 => 4,
        LpsOpCode::Dup4 => 5,
        LpsOpCode::Dup9 => 6,
        LpsOpCode::Drop1 => 7,
        LpsOpCode::Drop2 => 8,
        LpsOpCode::Drop3 => 9,
        LpsOpCode::Drop4 => 10,
        LpsOpCode::Drop9 => 11,
        LpsOpCode::Swap => 12,
        LpsOpCode::AddDec32 => 13,
        LpsOpCode::SubDec32 => 14,
        LpsOpCode::MulDec32 => 15,
        LpsOpCode::DivDec32 => 16,
        LpsOpCode::NegDec32 => 17,
        LpsOpCode::AbsDec32 => 18,
        LpsOpCode::MinDec32 => 19,
        LpsOpCode::MaxDec32 => 20,
        LpsOpCode::SinDec32 => 21,
        LpsOpCode::CosDec32 => 22,
        LpsOpCode::TanDec32 => 23,
        LpsOpCode::AtanDec32 => 24,
        LpsOpCode::Atan2Dec32 => 25,
        LpsOpCode::SqrtDec32 => 26,
        LpsOpCode::FloorDec32 => 27,
        LpsOpCode::CeilDec32 => 28,
        LpsOpCode::FractDec32 => 29,
        LpsOpCode::ModDec32 => 30,
        LpsOpCode::PowDec32 => 31,
        LpsOpCode::SignDec32 => 32,
        LpsOpCode::SaturateDec32 => 33,
        LpsOpCode::ClampDec32 => 34,
        LpsOpCode::StepDec32 => 35,
        LpsOpCode::LerpDec32 => 36,
        LpsOpCode::SmoothstepDec32 => 37,
        LpsOpCode::Perlin3(_) => 38,
        LpsOpCode::GreaterDec32 => 39,
        LpsOpCode::LessDec32 => 40,
        LpsOpCode::GreaterEqDec32 => 41,
        LpsOpCode::LessEqDec32 => 42,
        LpsOpCode::EqDec32 => 43,
        LpsOpCode::NotEqDec32 => 44,
        LpsOpCode::AndDec32 => 45,
        LpsOpCode::OrDec32 => 46,
        LpsOpCode::NotDec32 => 47,
        LpsOpCode::AddInt32 => 48,
        LpsOpCode::SubInt32 => 49,
        LpsOpCode::MulInt32 => 50,
        LpsOpCode::DivInt32 => 51,
        LpsOpCode::ModInt32 => 52,
        LpsOpCode::NegInt32 => 53,
        LpsOpCode::AbsInt32 => 54,
        LpsOpCode::MinInt32 => 55,
        LpsOpCode::MaxInt32 => 56,
        LpsOpCode::GreaterInt32 => 57,
        LpsOpCode::LessInt32 => 58,
        LpsOpCode::GreaterEqInt32 => 59,
        LpsOpCode::LessEqInt32 => 60,
        LpsOpCode::EqInt32 => 61,
        LpsOpCode::NotEqInt32 => 62,
        LpsOpCode::BitwiseAndInt32 => 63,
        LpsOpCode::BitwiseOrInt32 => 64,
        LpsOpCode::BitwiseXorInt32 => 65,
        LpsOpCode::BitwiseNotInt32 => 66,
        LpsOpCode::LeftShiftInt32 => 67,
        LpsOpCode::RightShiftInt32 => 68,
        LpsOpCode::Int32ToDec32 => 69,
        LpsOpCode::FixedToInt32 => 70,
        LpsOpCode::AddVec2 => 71,
        LpsOpCode::SubVec2 => 72,
        LpsOpCode::NegVec2 => 73,
        LpsOpCode::MulVec2 => 74,
        LpsOpCode::DivVec2 => 75,
        LpsOpCode::ModVec2 => 76,
        LpsOpCode::MulVec2Scalar => 77,
        LpsOpCode::DivVec2Scalar => 78,
        LpsOpCode::Dot2 => 79,
        LpsOpCode::Length2 => 80,
        LpsOpCode::Normalize2 => 81,
        LpsOpCode::Distance2 => 82,
        LpsOpCode::AddVec3 => 83,
        LpsOpCode::SubVec3 => 84,
        LpsOpCode::NegVec3 => 85,
        LpsOpCode::MulVec3 => 86,
        LpsOpCode::DivVec3 => 87,
        LpsOpCode::ModVec3 => 88,
        LpsOpCode::MulVec3Scalar => 89,
        LpsOpCode::DivVec3Scalar => 90,
        LpsOpCode::Dot3 => 91,
        LpsOpCode::Cross3 => 92,
        LpsOpCode::Length3 => 93,
        LpsOpCode::Normalize3 => 94,
        LpsOpCode::Distance3 => 95,
        LpsOpCode::AddVec4 => 96,
        LpsOpCode::SubVec4 => 97,
        LpsOpCode::NegVec4 => 98,
        LpsOpCode::MulVec4 => 99,
        LpsOpCode::DivVec4 => 100,
        LpsOpCode::ModVec4 => 101,
        LpsOpCode::MulVec4Scalar => 102,
        LpsOpCode::DivVec4Scalar => 103,
        LpsOpCode::Dot4 => 104,
        LpsOpCode::Length4 => 105,
        LpsOpCode::Normalize4 => 106,
        LpsOpCode::Distance4 => 107,
        LpsOpCode::AddMat3 => 108,
        LpsOpCode::SubMat3 => 109,
        LpsOpCode::NegMat3 => 110,
        LpsOpCode::MulMat3 => 111,
        LpsOpCode::MulMat3Scalar => 112,
        LpsOpCode::DivMat3Scalar => 113,
        LpsOpCode::MulMat3Vec3 => 114,
        LpsOpCode::TransposeMat3 => 115,
        LpsOpCode::DeterminantMat3 => 116,
        LpsOpCode::InverseMat3 => 117,
        LpsOpCode::Swizzle3to2(_, _) => 118,
        LpsOpCode::Swizzle3to3(_, _, _) => 119,
        LpsOpCode::Swizzle4to2(_, _) => 120,
        LpsOpCode::Swizzle4to3(_, _, _) => 121,
        LpsOpCode::Swizzle4to4(_, _, _, _) => 122,
        LpsOpCode::TextureSampleR(_) => 123,
        LpsOpCode::TextureSampleRGBA(_) => 124,
        LpsOpCode::LoadLocalDec32(_) => 125,
        LpsOpCode::StoreLocalDec32(_) => 126,
        LpsOpCode::LoadLocalInt32(_) => 127,
        LpsOpCode::StoreLocalInt32(_) => 128,
        LpsOpCode::LoadLocalVec2(_) => 129,
        LpsOpCode::StoreLocalVec2(_) => 130,
        LpsOpCode::LoadLocalVec3(_) => 131,
        LpsOpCode::StoreLocalVec3(_) => 132,
        LpsOpCode::LoadLocalVec4(_) => 133,
        LpsOpCode::StoreLocalVec4(_) => 134,
        LpsOpCode::LoadLocalMat3(_) => 135,
        LpsOpCode::StoreLocalMat3(_) => 136,
        LpsOpCode::GetElemInt32ArrayDec32 => 137,
        LpsOpCode::GetElemInt32ArrayU8 => 138,
        LpsOpCode::Jump(_) => 139,
        LpsOpCode::JumpIfZero(_) => 140,
        LpsOpCode::JumpIfNonZero(_) => 141,
        LpsOpCode::Select => 142,
        LpsOpCode::Call(_) => 143,
        LpsOpCode::Return => 144,
        LpsOpCode::Load(_) => 145,
    }
}

/// The name of the variant at position `i`.
spec fn name_at(i: int) -> &'static str {
    if i == 0 {
        "Push"
    } else if i == 1 {
        "PushInt32"
    } else if i == 2 {
        "Dup1"
    } else if i == 3 {
        "Dup2"
    } else if i == 4 {
        "Dup3"
    } else if i == 5 {
        "Dup4"
    } else if i == 6 {
        "Dup9"
    } else if i == 7 {
        "Drop1"
    } else if i == 8 {
        "Drop2"
    } else if i == 9 {
        "Drop3"
    } else if i == 10 {
        "Drop4"
    } else if i == 11 {
        "Drop9"
    } else if i == 12 {
        "Swap"
    } else if i == 13 {
        "AddDec32"
    } else if i == 14 {
        "SubDec32"
    } else if i == 15 {
        "MulDec32"
    } else if i == 16 {
        "DivDec32"
    } else if i == 17 {
        "NegDec32"
    } else if i == 18 {
        "AbsDec32"
    } else if i == 19 {
        "MinDec32"
    } else if i == 20 {
        "MaxDec32"
    } else if i == 21 {
        "SinDec32"
    } else if i == 22 {
        "CosDec32"
    } else if i == 23 {
        "TanDec32"
    } else if i == 24 {
        "AtanDec32"
    } else if i == 25 {
        "Atan2Dec32"
    } else if i == 26 {
        "SqrtDec32"
    } else if i == 27 {
        "FloorDec32"
    } else if i == 28 {
        "CeilDec32"
    } else if i == 29 {
        "FractDec32"
    } else if i == 30 {
        "ModDec32"
    } else if i == 31 {
        "PowDec32"
    } else if i == 32 {
        "SignDec32"
    } else if i == 33 {
        "SaturateDec32"
    } else if i == 34 {
        "ClampDec32"
    } else if i == 35 {
        "StepDec32"
    } else if i == 36 {
        "LerpDec32"
    } else if i == 37 {
        "SmoothstepDec32"
    } else if i == 38 {
        "Perlin3"
    } else if i == 39 {
        "GreaterDec32"
    } else if i == 40 {
        "LessDec32"
    } else if i == 41 {
        "GreaterEqDec32"
    } else if i == 42 {
        "LessEqDec32"
    } else if i == 43 {
        "EqDec32"
    } else if i == 44 {
        "NotEqDec32"
    } else if i == 45 {
        "AndDec32"
    } else if i == 46 {
        "OrDec32"
    } else if i == 47 {
        "NotDec32"
    } else if i == 48 {
        "AddInt32"
    } else if i == 49 {
        "SubInt32"
    } else if i == 50 {
        "MulInt32"
    } else if i == 51 {
        "DivInt32"
    } else if i == 52 {
        "ModInt32"
    } else if i == 53 {
        "NegInt32"
    } else if i == 54 {
        "AbsInt32"
    } else if i == 55 {
        "MinInt32"
    } else if i == 56 {
        "MaxInt32"
    } else if i == 57 {
        "GreaterInt32"
    } else if i == 58 {
        "LessInt32"
    } else if i == 59 {
        "GreaterEqInt32"
    } else if i == 60 {
        "LessEqInt32"
    } else if i == 61 {
        "EqInt32"
    } else if i == 62 {
        "NotEqInt32"
    } else if i == 63 {
        "BitwiseAndInt32"
    } else if i == 64 {
        "BitwiseOrInt32"
    } else if i == 65 {
        "BitwiseXorInt32"
    } else if i == 66 {
        "BitwiseNotInt32"
    } else if i == 67 {
        "LeftShiftInt32"
    } else if i == 68 {
        "RightShiftInt32"
    } else if i == 69 {
        "Int32ToDec32"
    } else if i == 70 {
        "FixedToInt32"
    } else if i == 71 {
        "AddVec2"
    } else if i == 72 {
        "SubVec2"
    } else if i == 73 {
        "NegVec2"
    } else if i == 74 {
        "MulVec2"
    } else if i == 75 {
        "DivVec2"
    } else if i == 76 {
        "ModVec2"
    } else if i == 77 {
        "MulVec2Scalar"
    } else if i == 78 {
        "DivVec2Scalar"
    } else if i == 79 {
        "Dot2"
    } else if i == 80 {
        "Length2"
    } else if i == 81 {
        "Normalize2"
    } else if i == 82 {
        "Distance2"
    } else if i == 83 {
        "AddVec3"
    } else if i == 84 {
        "SubVec3"
    } else if i == 85 {
        "NegVec3"
    } else if i == 86 {
        "MulVec3"
    } else if i == 87 {
        "DivVec3"
    } else if i == 88 {
        "ModVec3"
    } else if i == 89 {
        "MulVec3Scalar"
    } else if i == 90 {
        "DivVec3Scalar"
    } else if i == 91 {
        "Dot3"
    } else if i == 92 {
        "Cross3"
    } else if i == 93 {
        "Length3"
    } else if i == 94 {
        "Normalize3"
    } else if i == 95 {
        "Distance3"
    } else if i == 96 {
        "AddVec4"
    } else if i == 97 {
        "SubVec4"
    } else if i == 98 {
        "NegVec4"
    } else if i == 99 {
        "MulVec4"
    } else if i == 100 {
        "DivVec4"
    } else if i == 101 {
        "ModVec4"
    } else if i == 102 {
        "MulVec4Scalar"
    } else if i == 103 {
        "DivVec4Scalar"
    } else if i == 104 {
        "Dot4"
    } else if i == 105 {
        "Length4"
    } else if i == 106 {
        "Normalize4"
    } else if i == 107 {
        "Distance4"
    } else if i == 108 {
        "AddMat3"
    } else if i == 109 {
        "SubMat3"
    } else if i == 110 {
        "NegMat3"
    } else if i == 111 {
        "MulMat3"
    } else if i == 112 {
        "MulMat3Scalar"
    } else if i == 113 {
        "DivMat3Scalar"
    } else if i == 114 {
        "MulMat3Vec3"
    } else if i == 115 {
        "TransposeMat3"
    } else if i == 116 {
        "DeterminantMat3"
    } else if i == 117 {
        "InverseMat3"
    } else if i == 118 {
        "Swizzle3to2"
    } else if i == 119 {
        "Swizzle3to3"
    } else if i == 120 {
        "Swizzle4to2"
    } else if i == 121 {
        "Swizzle4to3"
    } else if i == 122 {
        "Swizzle4to4"
    } else if i == 123 {
        "TextureSampleR"
    } else if i == 124 {
        "TextureSampleRGBA"
    } else if i == 125 {
        "LoadLocalDec32"
    } else if i == 126 {
        "StoreLocalDec32"
    } else if i == 127 {
        "LoadLocalInt32"
    } else if i == 128 {
        "StoreLocalInt32"
    } else if i == 129 {
        "LoadLocalVec2"
    } else if i == 130 {
        "StoreLocalVec2"
    } else if i == 131 {
        "LoadLocalVec3"
    } else if i == 132 {
        "StoreLocalVec3"
    } else if i == 133 {
        "LoadLocalVec4"
    } else if i == 134 {
        "StoreLocalVec4"
    } else if i == 135 {
        "LoadLocalMat3"
    } else if i == 136 {
        "StoreLocalMat3"
    } else if i == 137 {
        "GetElemInt32ArrayDec32"
    } else if i == 138 {
        "GetElemInt32ArrayU8"
    } else if i == 139 {
        "Jump"
    } else if i == 140 {
        "JumpIfZero"
    } else if i == 141 {
        "JumpIfNonZero"
    } else if i == 142 {
        "Select"
    } else if i == 143 {
        "Call"
    } else if i == 144 {
        "Return"
    } else {
        "Load"
    }
}

/// The position of the variant named `s`, or -1 if no variant has that name, read
/// character by character.
spec fn position_of_name(s: Seq<char>) -> int {
    if s.len() == 0 {
        -1
    } else if s[0] == 'A' {
        if s.len() == 1 {
            -1
        } else if s[1] == 'b' {
            if s.len() == 2 {
                -1
            } else if s[2] == 's' {
                if s.len() == 3 {
                    -1
                } else if s[3] == 'D' {
                    if s.len() == 4 {
                        -1
                    } else if s[4] == 'e' {
                        if s.len() == 5 {
                            -1
                        } else if s[5] == 'c' {
                            if s.len() == 6 {
                                -1
                            } else if s[6] == '3' {
                                if s.len() == 7 {
                                    -1
                                } else if s[7] == '2' {
                                    18
                                } else {
                                    -1
                                }
                            } else {
                                -1
                            }
                        } else {
                            -1
                        }
                    } else {
                        -1
                    }
                } else if s[3] == 'I' {
                    if s.len() == 4 {
                        -1
                    } else if s[4] == 'n' {
                        if s.len() == 5 {
                            -1
                        } else if s[5] == 't' {
                            if s.len() == 6 {
                                -1
                            } else if s[6] == '3' {
                                if s.len() == 7 {
                                    -1
                                } else if s[7] == '2' {
                                    54
                                } else {
                                    -1
                                }
                            } else {
                                -1
                            }
                        } else {
                            -1
                        }
                    } else {
                        -1
                    }
                } else {
                    -1
                }
            } else {
                -1
            }
        } else if s[1] == 'd' {
            if s.len() == 2 {
                -1
            } else if s[2] == 'd' {
                if s.len() == 3 {
                    -1
                } else if s[3] == 'D' {
                    if s.len() == 4 {
                        -1
                    } else if s[4] == 'e' {
                        if s.len() == 5 {
                            -1
                        } else if s[5] == 'c' {
                            if s.len() == 6 {
                                -1
                            } else if s[6] == '3' {
                                if s.len() == 7 {
                                    -1
                                } else if s[7] == '2' {
                                    13
                                } else {
                                    -1
                                }
                            } else {
                                -1
                            }
                        } else {
                            -1
                        }
                    } else {
                        -1
                    }
                } else if s[3] == 'I' {
                    if s.len() == 4 {
                        -1
                    } else if s[4] == 'n' {
                        if s.len() == 5 {
                            -1
                        } else if s[5] == 't' {
                            if s.len() == 6 {
                                -1
                            } else if s[6] == '3' {
                                if s.len() == 7 {
                                    -1
                                } else if s[7] == '2' {
                                    48
                                } else {
                                    -1
                                }
                            } else {
                                -1
                            }
                        } else {
                            -1
                        }
                    } else {
                        -1
                    }
                } else if s[3] == 'M' {
                    if s.len() == 4 {
                        -1
                    } else if s[4] == 'a' {
                        if s.len() == 5 {
                            -1
                        } else if s[5] == 't' {
                            if s.len() == 6 {
                                -1
                            } else if s[6] == '3' {
                                108
                            } else {
                                -1
                            }
                        } else {
                            -1
                        }
                    } else {
                        -1
                    }
                } else if s[3] == 'V' {
                    if s.len() == 4 {
                        -1
                    } else if s[4] == 'e' {
                        if s.len() == 5 {
                            -1
                        } else if s[5] == 'c' {
                            if s.len() == 6 {
                                -1
                            } else if s[6] == '2' {
                                71
                            } else if s[6] == '3' {
                                83
                            } else if s[6] == '4' {
                                96
                            } else {
                                -1
                            }
                        } else {
                            -1
                        }
                    } else {
                        -1
                    }
                } else {
                    -1
                }
            } else {
                -1
            }
        } else if s[1] == 'n' {
            if s.len() == 2 {
                -1
            } else if s[2] == 'd' {
                if s.len() == 3 {
                    -1
                } else if s[3] == 'D' {
                    if s.len() == 4 {
                        -1
                    } else if s[4] == 'e' {
                        if s.len() == 5 {
                            -1
                        } else if s[5] == 'c' {
                            if s.len() == 6 {
                                -1
                            } else if s[6] == '3' {
                                if s.len() == 7 {
                                    -1
                                } else if s[7] == '2' {
                                    45
                                } else {
                                    -1
                                }
                            } else {
                                -1
                            }
                        } else {
                            -1
                        }
                    } else {
                        -1
                    }
                } else {
                    -1
                }
            } else {
                -1
            }
        } else if s[1] == 't' {
            if s.len() == 2 {
                -1
            } else if s[2] == 'a' {
                if s.len() == 3 {
                    -1
                } else if s[3] == 'n' {
                    if s.len() == 4 {
                        -1
                    } else if s[4] == '2' {
                        if s.len() == 5 {
                            -1
                        } else if s[5] == 'D' {
                            if s.len() == 6 {
                                -1
                            } else if s[6] == 'e' {
                                if s.len() == 7 {
                                    -1
                                } else if s[7] == 'c' {
                                    if s.len() == 8 {
                                        -1
                                    } else if s[8] == '3' {
                                        if s.len() == 9 {
                                            -1
                                        } else if s[9] == '2' {
                                            25
                                        } else {
                                            -1
                                        }
                                    } else {
                                        -1
                                    }
                                } else {
                                    -1
                                }
                            } else {
                                -1
                            }
                        } else {
                            -1
                        }
                    } else if s[4] == 'D' {
                        if s.len() == 5 {
                            -1
                        } else if s[5] == 'e' {
                            if s.len() == 6 {
                                -1
                            } else if s[6] == 'c' {
                                if s.len() == 7 {
                                    -1
                                } else if s[7] == '3' {
                                    if s.len() == 8 {
                                        -1
                                    } else if s[8] == '2' {
                                        24
                                    } else {
                                        -1
                                    }
                                } else {
                                    -1
                                }
                            } else {
                                -1
                            }
                        } else {
                            -1
                        }
                    } else {
                        -1
                    }
                } else {
                    -1
                }
            } else {
                -1
            }
        } else {
            -1
        }
    } else if s[0] == 'B' {
        if s.len() == 1 {
            -1
        } else if s[1] == 'i' {
            if s.len() == 2 {
                -1
            } else if s[2] == 't' {
                if s.len() == 3 {
                    -1
                } else if s[3] == 'w' {
                    if s.len() == 4 {
                        -1
                    } else if s[4] == 'i' {
                        if s.len() == 5 {
                            -1
                        } else if s[5] == 's' {
                            if s.len() == 6 {
                                -1
                            } else if s[6] == 'e' {
                                if s.len() == 7 {
                                    -1
                                } else if s[7] == 'A' {
                                    if s.len() == 8 {
                                        -1
                                    } else if s[8] == 'n' {
                                        if s.len() == 9 {
                                            -1
                                        } else if s[9] == 'd' {
                                            if s.len() == 10 {
                                                -1
                                            } else if s[10] == 'I' {
                                                if s.len() == 11 {
                                                    -1
                                                } else if s[11] == 'n' {
                                                    if s.len() == 12 {
                                                        -1
                                                    } else if s[12] == 't' {
                                                        if s.len() == 13 {
                                                            -1
                                                        } else if s[13] == '3' {
                                                            if s.len() == 14 {
                                                                -1
                                                            } else if s[14] == '2' {
                                                                63
                                                            } else {
                                                                -1
                                                            }
                                                        } else {
                                                            -1
                                                        }
                                                    } else {
                                                        -1
                                                    }
                                                } else {
                                                    -1
                                                }
                                            } else {
                                                -1
                                            }
                                        } else {
                                            -1
                                        }
                                    } else {
                                        -1
                                    }
                                } else if s[7] == 'N' {
                                    if s.len() == 8 {
                                        -1
                                    } else if s[8] == 'o' {
                                        if s.len() == 9 {
                                            -1
                                        } else if s[9] == 't' {
                                            if s.len() == 10 {
                                                -1
                                            } else if s[10] == 'I' {
                                                if s.len() == 11 {
                                                    -1
                                                } else if s[11] == 'n' {
                                                    if s.len() == 12 {
                                                        -1
                                                    } else if s[12] == 't' {
                                                        if s.len() == 13 {
                                                            -1
                                                        } else if s[13] == '3' {
                                                            if s.len() == 14 {
                                                                -1
                                                            } else if s[14] == '2' {
                                                                66
                                                            } else {
                                                                -1
                                                            }
                                                        } else {
                                                            -1
                                                        }
                                                    } else {
                                                        -1
                                                    }
                                                } else {
                                                    -1
                                                }
                                            } else {
                                                -1
                                            }
                                        } else {
                                            -1
                                        }
                                    } else {
                                        -1
                                    }
                                } else if s[7] == 'O' {
                                    if s.len() == 8 {
                                        -1
                                    } else if s[8] == 'r' {
                                        if s.len() == 9 {
                                            -1
                                        } else if s[9] == 'I' {
                                            if s.len() == 10 {
                                                -1
                                            } else if s[10] == 'n' {
                                                if s.len() == 11 {
                                                    -1
                                                } else if s[11] == 't' {
                                                    if s.len() == 12 {
                                                        -1
                                                    } else if s[12] == '3' {
                                                        if s.len() == 13 {
                                                            -1
                                                        } else if s[13] == '2' {
                                                            64
                                                        } else {
                                                            -1
                                                        }
                                                    } else {
                                                        -1
                                                    }
                                                } else {
                                                    -1
                                                }
                                            } else {
                                                -1
                                            }
                                        } else {
                                            -1
                                        }
                                    } else {
                                        -1
                                    }
                                } else if s[7] == 'X' {
                                    if s.len() == 8 {
                                        -1
                                    } else if s[8] == 'o' {
                                        if s.len() == 9 {
                                            -1
                                        } else if s[9] == 'r' {
                                            if s.len() == 10 {
                                                -1
                                            } else if s[10] == 'I' {
                                                if s.len() == 11 {
                                                    -1
                                                } else if s[11] == 'n' {
                                                    if s.len() == 12 {
                                                        -1
                                                    } else if s[12] == 't' {
                                                        if s.len() == 13 {
                                                            -1
                                                        } else if s[13] == '3' {
                                                            if s.len() == 14 {
                                                                -1
                                                            } else if s[14] == '2' {
                                                                65
                                                            } else {
                                                                -1
                                                            }
                                                        } else {
                                                            -1
                                                        }
                                                    } else {
                                                        -1
                                                    }
                                                } else {
                                                    -1
                                                }
                                            } else {
                                                -1
                                            }
                                        } else {
                                            -1
                                        }
                                    } else {
                                        -1
                                    }
                                } else {
                                    -1
                                }
                            } else {
                                -1
                            }
                        } else {
                            -1
                        }
                    } else {
                        -1
                    }
                } else {
                    -1
                }
            } else {
                -1
            }
        } else {
            -1
        }
    } else if s[0] == 'C' {
        if s.len() == 1 {
            -1
        } else if s[1] == 'a' {
            if s.len() == 2 {
                -1
            } else if s[2] == 'l' {
                if s.len() == 3 {
                    -1
                } else if s[3] == 'l' {
                    143
                } else {
                    -1
                }
            } else {
                -1
            }
        } else if s[1] == 'e' {
            if s.len() == 2 {
                -1
            } else if s[2] == 'i' {
                if s.len() == 3 {
                    -1
                } else if s[3] == 'l' {
                    if s.len() == 4 {
                        -1
                    } else if s[4] == 'D' {
                        if s.len() == 5 {
                            -1
                        } else if s[5] == 'e' {
                            if s.len() == 6 {
                                -1
                            } else if s[6] == 'c' {
                                if s.len() == 7 {
                                    -1
                                } else if s[7] == '3' {
                                    if s.len() == 8 {
                                        -1
                                    } else if s[8] == '2' {
                                        28
                                    } else {
                                        -1
                                    }
                                } else {
                                    -1
                                }
                            } else {
                                -1
                            }
                        } else {
                            -1
                        }
                    } else {
                        -1
                    }
                } else {
                    -1
                }
            } else {
                -1
            }
        } else if s[1] == 'l' {
            if s.len() == 2 {
                -1
            } else if s[2] == 'a' {
                if s.len() == 3 {
                    -1
                } else if s[3] == 'm' {
                    if s.len() == 4 {
                        -1
                    } else if s[4] == 'p' {
                        if s.len() == 5 {
                            -1
                        } else if s[5] == 'D' {
                            if s.len() == 6 {
                                -1
                            } else if s[6] == 'e' {
                                if s.len() == 7 {
                                    -1
                                } else if s[7] == 'c' {
                                    if s.len() == 8 {
                                        -1
                                    } else if s[8] == '3' {
                                        if s.len() == 9 {
                                            -1
                                        } else if s[9] == '2' {
                                            34
                                        } else {
                                            -1
                                        }
                                    } else {
                                        -1
                                    }
                                } else {
                                    -1
                                }
                            } else {
                                -1
                            }
                        } else {
                            -1
                        }
                    } else {
                        -1
                    }
                } else {
                    -1
                }
            } else {
                -1
            }
        } else if s[1] == 'o' {
            if s.len() == 2 {
                -1
            } else if s[2] == 's' {
                if s.len() == 3 {
                    -1
                } else if s[3] == 'D' {
                    if s.len() == 4 {
                        -1
                    } else if s[4] == 'e' {
                        if s.len() == 5 {
                            -1
                        } else if s[5] == 'c' {
                            if s.len() == 6 {
                                -1
                            } else if s[6] == '3' {
                                if s.len() == 7 {
                                    -1
                                } else if s[7] == '2' {
                                    22
                                } else {
                                    -1
                                }
                            } else {
                                -1
                            }
                        } else {
                            -1
                        }
                    } else {
                        -1
                    }
                } else {
                    -1
                }
            } else {
                -1
            }
        } else if s[1] == 'r' {
            if s.len() == 2 {
                -1
            } else if s[2] == 'o' {
                if s.len() == 3 {
                    -1
                } else if s[3] == 's' {
                    if s.len() == 4 {
                        -1
                    } else if s[4] == 's' {
                        if s.len() == 5 {
                            -1
                        } else if s[5] == '3' {
                            92
                        } else {
                            -1
                        }
                    } else {
                        -1
                    }
                } else {
                    -1
                }
            } else {
                -1
            }
        } else {
            -1
        }
    } else if s[0] == 'D' {
        if s.len() == 1 {
            -1
        } else if s[1] == 'e' {
            if s.len() == 2 {
                -1
            } else if s[2] == 't' {
                if s.len() == 3 {
                    -1
                } else if s[3] == 'e' {
                    if s.len() == 4 {
                        -1
                    } else if s[4] == 'r' {
                        if s.len() == 5 {
                            -1
                        } else if s[5] == 'm' {
                            if s.len() == 6 {
                                -1
                            } else if s[6] == 'i' {
                                if s.len() == 7 {
                                    -1
                                } else if s[7] == 'n' {
                                    if s.len() == 8 {
                                        -1
                                    } else if s[8] == 'a' {
                                        if s.len() == 9 {
                                            -1
                                        } else if s[9] == 'n' {
                                            if s.len() == 10 {
                                                -1
                                            } else if s[10] == 't' {
                                                if s.len() == 11 {
                                                    -1
                                                } else if s[11] == 'M' {
                                                    if s.len() == 12 {
                                                        -1
                                                    } else if s[12] == 'a' {
                                                        if s.len() == 13 {
                                                            -1
                                                        } else if s[13] == 't' {
                                                            if s.len() == 14 {
                                                                -1
                                                            } else if s[14] == '3' {
                                                                116
                                                            } else {
                                                                -1
                                                            }
                                                        } else {
                                                            -1
                                                        }
                                                    } else {
                                                        -1
                                                    }
                                                } else {
                                                    -1
                                                }
                                            } else {
                                                -1
                                            }
                                        } else {
                                            -1
                                        }
                                    } else {
                                        -1
                                    }
                                } else {
                                    -1
                                }
                            } else {
                                -1
                            }
                        } else {
                            -1
                        }
                    } else {
                        -1
                    }
                } else {
                    -1
                }
            } else {
                -1
            }
        } else if s[1] == 'i' {
            if s.len() == 2 {
                -1
            } else if s[2] == 's' {
                if s.len() == 3 {
                    -1
                } else if s[3] == 't' {
                    if s.len() == 4 {
                        -1
                    } else if s[4] == 'a' {
                        if s.len() == 5 {
                            -1
                        } else if s[5] == 'n' {
                            if s.len() == 6 {
                                -1
                            } else if s[6] == 'c' {
                                if s.len() == 7 {
                                    -1
                                } else if s[7] == 'e' {
                                    if s.len() == 8 {
                                        -1
                                    } else if s[8] == '2' {
                                        82
                                    } else if s[8] == '3' {
                                        95
                                    } else if s[8] == '4' {
                                        107
                                    } else {
                                        -1
                                    }
                                } else {
                                    -1
                                }
                            } else {
                                -1
                            }
                        } else {
                            -1
                        }
                    } else {
                        -1
                    }
                } else {
                    -1
                }
            } else if s[2] == 'v' {
                if s.len() == 3 {
                    -1
                } else if s[3] == 'D' {
                    if s.len() == 4 {
                        -1
                    } else if s[4] == 'e' {
                        if s.len() == 5 {
                            -1
                        } else if s[5] == 'c' {
                            if s.len() == 6 {
                                -1
                            } else if s[6] == '3' {
                                if s.len() == 7 {
                                    -1
                                } else if s[7] == '2' {
                                    16
                                } else {
                                    -1
                                }
                            } else {
                                -1
                            }
                        } else {
                            -1
                        }
                    } else {
                        -1
                    }
                } else if s[3] == 'I' {
                    if s.len() == 4 {
                        -1
                    } else if s[4] == 'n' {
                        if s.len() == 5 {
                            -1
                        } else if s[5] == 't' {
                            if s.len() == 6 {
                                -1
                            } else if s[6] == '3' {
                                if s.len() == 7 {
                                    -1
                                } else if s[7] == '2' {
                                    51
                                } else {
                                    -1
                                }
                            } else {
                                -1
                            }
                        } else {
                            -1
                        }
                    } else {
                        -1
                    }
                } else if s[3] == 'M' {
                    if s.len() == 4 {
                        -1
                    } else if s[4] == 'a' {
                        if s.len() == 5 {
                            -1
                        } else if s[5] == 't' {
                            if s.len() == 6 {
                                -1
                            } else if s[6] == '3' {
                                if s.len() == 7 {
                                    -1
                                } else if s[7] == 'S' {
                                    if s.len() == 8 {
                                        -1
                                    } else if s[8] == 'c' {
                                        if s.len() == 9 {
                                            -1
                                        } else if s[9] == 'a' {
                                            if s.len() == 10 {
                                                -1
                                            } else if s[10] == 'l' {
                                                if s.len() == 11 {
                                                    -1
                                                } else if s[11] == 'a' {
                                                    if s.len() == 12 {
                                                        -1
                                                    } else if s[12] == 'r' {
                                                        113
                                                    } else {
                                                        -1
                                                    }
                                                } else {
                                                    -1
                                                }
                                            } else {
                                                -1
                                            }
                                        } else {
                                            -1
                                        }
                                    } else {
                                        -1
                                    }
                                } else {
                                    -1
                                }
                            } else {
                                -1
                            }
                        } else {
                            -1
                        }
                    } else {
                        -1
                    }
                } else if s[3] == 'V' {
                    if s.len() == 4 {
                        -1
                    } else if s[4] == 'e' {
                        if s.len() == 5 {
                            -1
                        } else if s[5] == 'c' {
                            if s.len() == 6 {
                                -1
                            } else if s[6] == '2' {
                                if s.len() == 7 {
                                    75
                                } else if s[7] == 'S' {
                                    if s.len() == 8 {
                                        -1
                                    } else if s[8] == 'c' {
                                        if s.len() == 9 {
                                            -1
                                        } else if s[9] == 'a' {
                                            if s.len() == 10 {
                                                -1
                                            } else if s[10] == 'l' {
                                                if s.len() == 11 {
                                                    -1
                                                } else if s[11] == 'a' {
                                                    if s.len() == 12 {
                                                        -1
                                                    } else if s[12] == 'r' {
                                                        78
                                                    } else {
                                                        -1
                                                    }
                                                } else {
                                                    -1
                                                }
                                            } else {
                                                -1
                                            }
                                        } else {
                                            -1
                                        }
                                    } else {
                                        -1
                                    }
                                } else {
                                    -1
                                }
                            } else if s[6] == '3' {
                                if s.len() == 7 {
                                    87
                                } else if s[7] == 'S' {
                                    if s.len() == 8 {
                                        -1
                                    } else if s[8] == 'c' {
                                        if s.len() == 9 {
                                            -1
                                        } else if s[9] == 'a' {
                                            if s.len() == 10 {
                                                -1
                                            } else if s[10] == 'l' {
                                                if s.len() == 11 {
                                                    -1
                                                } else if s[11] == 'a' {
                                                    if s.len() == 12 {
                                                        -1
                                                    } else if s[12] == 'r' {
                                                        90
                                                    } else {
                                                        -1
                                                    }
                                                } else {
                                                    -1
                                                }
                                            } else {
                                                -1
                                            }
                                        } else {
                                            -1
                                        }
                                    } else {
                                        -1
                                    }
                                } else {
                                    -1
                                }
                            } else if s[6] == '4' {
                                if s.len() == 7 {
                                    100
                                } else if s[7] == 'S' {
                                    if s.len() == 8 {
                                        -1
                                    } else if s[8] == 'c' {
                                        if s.len() == 9 {
                                            -1
                                        } else if s[9] == 'a' {
                                            if s.len() == 10 {
                                                -1
                                            } else if s[10] == 'l' {
                                                if s.len() == 11 {
                                                    -1
                                                } else if s[11] == 'a' {
                                                    if s.len() == 12 {
                                                        -1
                                                    } else if s[12] == 'r' {
                                                        103
                                                    } else {
                                                        -1
                                                    }
                                                } else {
                                                    -1
                                                }
                                            } else {
                                                -1
                                            }
                                        } else {
                                            -1
                                        }
                                    } else {
                                        -1
                                    }
                                } else {
                                    -1
                                }
                            } else {
                                -1
                            }
                        } else {
                            -1
                        }
                    } else {
                        -1
                    }
                } else {
                    -1
                }
            } else {
                -1
            }
        } else if s[1] == 'o' {
            if s.len() == 2 {
                -1
            } else if s[2] == 't' {
                if s.len() == 3 {
                    -1
                } else if s[3] == '2' {
                    79
                } else if s[3] == '3' {
                    91
                } else if s[3] == '4' {
                    104
                } else {
                    -1
                }
            } else {
                -1
            }
        } else if s[1] == 'r' {
            if s.len() == 2 {
                -1
            } else if s[2] == 'o' {
                if s.len() == 3 {
                    -1
                } else if s[3] == 'p' {
                    if s.len() == 4 {
                        -1
                    } else if s[4] == '1' {
                        7
                    } else if s[4] == '2' {
                        8
                    } else if s[4] == '3' {
                        9
                    } else if s[4] == '4' {
                        10
                    } else if s[4] == '9' {
                        11
                    } else {
                        -1
                    }
                } else {
                    -1
                }
            } else {
                -1
            }
        } else if s[1] == 'u' {
            if s.len() == 2 {
                -1
            } else if s[2] == 'p' {
                if s.len() == 3 {
                    -1
                } else if s[3] == '1' {
                    2
                } else if s[3] == '2' {
                    3
                } else if s[3] == '3' {
                    4
                } else if s[3] == '4' {
                    5
                } else if s[3] == '9' {
                    6
                } else {
                    -1
                }
            } else {
                -1
            }
        } else {
            -1
        }
    } else if s[0] == 'E' {
        if s.len() == 1 {
            -1
        } else if s[1] == 'q' {
            if s.len() == 2 {
                -1
            } else if s[2] == 'D' {
                if s.len() == 3 {
                    -1
                } else if s[3] == 'e' {
                    if s.len() == 4 {
                        -1
                    } else if s[4] == 'c' {
                        if s.len() == 5 {
                            -1
                        } else if s[5] == '3' {
                            if s.len() == 6 {
                                -1
                            } else if s[6] == '2' {
                                43
                            } else {
                                -1
                            }
                        } else {
                            -1
                        }
                    } else {
                        -1
                    }
                } else {
                    -1
                }
            } else if s[2] == 'I' {
                if s.len() == 3 {
                    -1
                } else if s[3] == 'n' {
                    if s.len() == 4 {
                        -1
                    } else if s[4] == 't' {
                        if s.len() == 5 {
                            -1
                        } else if s[5] == '3' {
                            if s.len() == 6 {
                                -1
                            } else if s[6] == '2' {
                                61
                            } else {
                                -1
                            }
                        } else {
                            -1
                        }
                    } else {
                        -1
                    }
                } else {
                    -1
                }
            } else {
                -1
            }
        } else {
            -1
        }
    } else if s[0] == 'F' {
        if s.len() == 1 {
            -1
        } else if s[1] == 'i' {
            if s.len() == 2 {
                -1
            } else if s[2] == 'x' {
                if s.len() == 3 {
                    -1
                } else if s[3] == 'e' {
                    if s.len() == 4 {
                        -1
                    } else if s[4] == 'd' {
                        if s.len() == 5 {
                            -1
                        } else if s[5] == 'T' {
                            if s.len() == 6 {
                                -1
                            } else if s[6] == 'o' {
                                if s.len() == 7 {
                                    -1
                                } else if s[7] == 'I' {
                                    if s.len() == 8 {
                                        -1
                                    } else if s[8] == 'n' {
                                        if s.len() == 9 {
                                            -1
                                        } else if s[9] == 't' {
                                            if s.len() == 10 {
                                                -1
                                            } else if s[10] == '3' {
                                                if s.len() == 11 {
                                                    -1
                                                } else if s[11] == '2' {
                                                    70
                                                } else {
                                                    -1
                                                }
                                            } else {
                                                -1
                                            }
                                        } else {
                                            -1
                                        }
                                    } else {
                                        -1
                                    }
                                } else {
                                    -1
                                }
                            } else {
                                -1
                            }
                        } else {
                            -1
                        }
                    } else {
                        -1
                    }
                } else {
                    -1
                }
            } else {
                -1
            }
        } else if s[1] == 'l' {
            if s.len() == 2 {
                -1
            } else if s[2] == 'o' {
                if s.len() == 3 {
                    -1
                } else if s[3] == 'o' {
                    if s.len() == 4 {
                        -1
                    } else if s[4] == 'r' {
                        if s.len() == 5 {
                            -1
                        } else if s[5] == 'D' {
                            if s.len() == 6 {
                                -1
                            } else if s[6] == 'e' {
                                if s.len() == 7 {
                                    -1
                                } else if s[7] == 'c' {
                                    if s.len() == 8 {
                                        -1
                                    } else if s[8] == '3' {
                                        if s.len() == 9 {
                                            -1
                                        } else if s[9] == '2' {
                                            27
                                        } else {
                                            -1
                                        }
                                    } else {
                                        -1
                                    }
                                } else {
                                    -1
                                }
                            } else {
                                -1
                            }
                        } else {
                            -1
                        }
                    } else {
                        -1
                    }
                } else {
                    -1
                }
            } else {
                -1
            }
        } else if s[1] == 'r' {
            if s.len() == 2 {
                -1
            } else if s[2] == 'a' {
                if s.len() == 3 {
                    -1
                } else if s[3] == 'c' {
                    if s.len() == 4 {
                        -1
                    } else if s[4] == 't' {
                        if s.len() == 5 {
                            -1
                        } else if s[5] == 'D' {
                            if s.len() == 6 {
                                -1
                            } else if s[6] == 'e' {
                                if s.len() == 7 {
                                    -1
                                } else if s[7] == 'c' {
                                    if s.len() == 8 {
                                        -1
                                    } else if s[8] == '3' {
                                        if s.len() == 9 {
                                            -1
                                        } else if s[9] == '2' {
                                            29
                                        } else {
                                            -1
                                        }
                                    } else {
                                        -1
                                    }
                                } else {
                                    -1
                                }
                            } else {
                                -1
                            }
                        } else {
                            -1
                        }
                    } else {
                        -1
                    }
                } else {
                    -1
                }
            } else {
                -1
            }
        } else {
            -1
        }
    } else if s[0] == 'G' {
        if s.len() == 1 {
            -1
        } else if s[1] == 'e' {
            if s.len() == 2 {
                -1
            } else if s[2] == 't' {
                if s.len() == 3 {
                    -1
                } else if s[3] == 'E' {
                    if s.len() == 4 {
                        -1
                    } else if s[4] == 'l' {
                        if s.len() == 5 {
                            -1
                        } else if s[5] == 'e' {
                            if s.len() == 6 {
                                -1
                            } else if s[6] == 'm' {
                                if s.len() == 7 {
                                    -1
                                } else if s[7] == 'I' {
                                    if s.len() == 8 {
                                        -1
                                    } else if s[8] == 'n' {
                                        if s.len() == 9 {
                                            -1
                                        } else if s[9] == 't' {
                                            if s.len() == 10 {
                                                -1
                                            } else if s[10] == '3' {
                                                if s.len() == 11 {
                                                    -1
                                                } else if s[11] == '2' {
                                                    if s.len() == 12 {
                                                        -1
                                                    } else if s[12] == 'A' {
                                                        if s.len() == 13 {
                                                            -1
                                                        } else if s[13] == 'r' {
                                                            if s.len() == 14 {
                                                                -1
                                                            } else if s[14] == 'r' {
                                                                if s.len() == 15 {
                                                                    -1
                                                                } else if s[15] == 'a' {
                                                                    if s.len() == 16 {
                                                                        -1
                                                                    } else if s[16] == 'y' {
                                                                        if s.len() == 17 {
                                                                            -1
                                                                        } else if s[17] == 'D' {
                                                                            if s.len() == 18 {
                                                                                -1
                                                                            } else if s[18] == 'e' {
                                                                                if s.len() == 19 {
                                                                                    -1
                                                                                } else if s[19] == 'c' {
                                                                                    if s.len() == 20 {
                                                                                        -1
                                                                                    } else if s[20] == '3' {
                                                                                        if s.len() == 21 {
                                                                                            -1
                                                                                        } else if s[21] == '2' {
                                                                                            137
                                                                                        } else {
                                                                                            -1
                                                                                        }
                                                                                    } else {
                                                                                        -1
                                                                                    }
                                                                                } else {
                                                                                    -1
                                                                                }
                                                                            } else {
                                                                                -1
                                                                            }
                                                                        } else if s[17] == 'U' {
                                                                            if s.len() == 18 {
                                                                                -1
                                                                            } else if s[18] == '8' {
                                                                                138
                                                                            } else {
                                                                                -1
                                                                            }
                                                                        } else {
                                                                            -1
                                                                        }
                                                                    } else {
                                                                        -1
                                                                    }
                                                                } else {
                                                                    -1
                                                                }
                                                            } else {
                                                                -1
                                                            }
                                                        } else {
                                                            -1
                                                        }
                                                    } else {
                                                        -1
                                                    }
                                                } else {
                                                    -1
                                                }
                                            } else {
                                                -1
                                            }
                                        } else {
                                            -1
                                        }
                                    } else {
                                        -1
                                    }
                                } else {
                                    -1
                                }
                            } else {
                                -1
                            }
                        } else {
                            -1
                        }
                    } else {
                        -1
                    }
                } else {
                    -1
                }
            } else {
                -1
            }
        } else if s[1] == 'r' {
            if s.len() == 2 {
                -1
            } else if s[2] == 'e' {
                if s.len() == 3 {
                    -1
                } else if s[3] == 'a' {
                    if s.len() == 4 {
                        -1
                    } else if s[4] == 't' {
                        if s.len() == 5 {
                            -1
                        } else if s[5] == 'e' {
                            if s.len() == 6 {
                                -1
                            } else if s[6] == 'r' {
                                if s.len() == 7 {
                                    -1
                                } else if s[7] == 'D' {
                                    if s.len() == 8 {
                                        -1
                                    } else if s[8] == 'e' {
                                        if s.len() == 9 {
                                            -1
                                        } else if s[9] == 'c' {
                                            if s.len() == 10 {
                                                -1
                                            } else if s[10] == '3' {
                                                if s.len() == 11 {
                                                    -1
                                                } else if s[11] == '2' {
                                                    39
                                                } else {
                                                    -1
                                                }
                                            } else {
                                                -1
                                            }
                                        } else {
                                            -1
                                        }
                                    } else {
                                        -1
                                    }
                                } else if s[7] == 'E' {
                                    if s.len() == 8 {
                                        -1
                                    } else if s[8] == 'q' {
                                        if s.len() == 9 {
                                            -1
                                        } else if s[9] == 'D' {
                                            if s.len() == 10 {
                                                -1
                                            } else if s[10] == 'e' {
                                                if s.len() == 11 {
                                                    -1
                                                } else if s[11] == 'c' {
                                                    if s.len() == 12 {
                                                        -1
                                                    } else if s[12] == '3' {
                                                        if s.len() == 13 {
                                                            -1
                                                        } else if s[13] == '2' {
                                                            41
                                                        } else {
                                                            -1
                                                        }
                                                    } else {
                                                        -1
                                                    }
                                                } else {
                                                    -1
                                                }
                                            } else {
                                                -1
                                            }
                                        } else if s[9] == 'I' {
                                            if s.len() == 10 {
                                                -1
                                            } else if s[10] == 'n' {
                                                if s.len() == 11 {
                                                    -1
                                                } else if s[11] == 't' {
                                                    if s.len() == 12 {
                                                        -1
                                                    } else if s[12] == '3' {
                                                        if s.len() == 13 {
                                                            -1
                                                        } else if s[13] == '2' {
                                                            59
                                                        } else {
                                                            -1
                                                        }
                                                    } else {
                                                        -1
                                                    }
                                                } else {
                                                    -1
                                                }
                                            } else {
                                                -1
                                            }
                                        } else {
                                            -1
                                        }
                                    } else {
                                        -1
                                    }
                                } else if s[7] == 'I' {
                                    if s.len() == 8 {
                                        -1
                                    } else if s[8] == 'n' {
                                        if s.len() == 9 {
                                            -1
                                        } else if s[9] == 't' {
                                            if s.len() == 10 {
                                                -1
                                            } else if s[10] == '3' {
                                                if s.len() == 11 {
                                                    -1
                                                } else if s[11] == '2' {
                                                    57
                                                } else {
                                                    -1
                                                }
                                            } else {
                                                -1
                                            }
                                        } else {
                                            -1
                                        }
                                    } else {
                                        -1
                                    }
                                } else {
                                    -1
                                }
                            } else {
                                -1
                            }
                        } else {
                            -1
                        }
                    } else {
                        -1
                    }
                } else {
                    -1
                }
            } else {
                -1
            }
        } else {
            -1
        }
    } else if s[0] == 'I' {
        if s.len() == 1 {
            -1
        } else if s[1] == 'n' {
            if s.len() == 2 {
                -1
            } else if s[2] == 't' {
                if s.len() == 3 {
                    -1
                } else if s[3] == '3' {
                    if s.len() == 4 {
                        -1
                    } else if s[4] == '2' {
                        if s.len() == 5 {
                            -1
                        } else if s[5] == 'T' {
                            if s.len() == 6 {
                                -1
                            } else if s[6] == 'o' {
                                if s.len() == 7 {
                                    -1
                                } else if s[7] == 'D' {
                                    if s.len() == 8 {
                                        -1
                                    } else if s[8] == 'e' {
                                        if s.len() == 9 {
                                            -1
                                        } else if s[9] == 'c' {
                                            if s.len() == 10 {
                                                -1
                                            } else if s[10] == '3' {
                                                if s.len() == 11 {
                                                    -1
                                                } else if s[11] == '2' {
                                                    69
                                                } else {
                                                    -1
                                                }
                                            } else {
                                                -1
                                            }
                                        } else {
                                            -1
                                        }
                                    } else {
                                        -1
                                    }
                                } else {
                                    -1
                                }
                            } else {
                                -1
                            }
                        } else {
                            -1
                        }
                    } else {
                        -1
                    }
                } else {
                    -1
                }
            } else if s[2] == 'v' {
                if s.len() == 3 {
                    -1
                } else if s[3] == 'e' {
                    if s.len() == 4 {
                        -1
                    } else if s[4] == 'r' {
                        if s.len() == 5 {
                            -1
                        } else if s[5] == 's' {
                            if s.len() == 6 {
                                -1
                            } else if s[6] == 'e' {
                                if s.len() == 7 {
                                    -1
                                } else if s[7] == 'M' {
                                    if s.len() == 8 {
                                        -1
                                    } else if s[8] == 'a' {
                                        if s.len() == 9 {
                                            -1
                                        } else if s[9] == 't' {
                                            if s.len() == 10 {
                                                -1
                                            } else if s[10] == '3' {
                                                117
                                            } else {
                                                -1
                                            }
                                        } else {
                                            -1
                                        }
                                    } else {
                                        -1
                                    }
                                } else {
                                    -1
                                }
                            } else {
                                -1
                            }
                        } else {
                            -1
                        }
                    } else {
                        -1
                    }
                } else {
                    -1
                }
            } else {
                -1
            }
        } else {
            -1
        }
    } else if s[0] == 'J' {
        if s.len() == 1 {
            -1
        } else if s[1] == 'u' {
            if s.len() == 2 {
                -1
            } else if s[2] == 'm' {
                if s.len() == 3 {
                    -1
                } else if s[3] == 'p' {
                    if s.len() == 4 {
                        139
                    } else if s[4] == 'I' {
                        if s.len() == 5 {
                            -1
                        } else if s[5] == 'f' {
                            if s.len() == 6 {
                                -1
                            } else if s[6] == 'N' {
                                if s.len() == 7 {
                                    -1
                                } else if s[7] == 'o' {
                                    if s.len() == 8 {
                                        -1
                                    } else if s[8] == 'n' {
                                        if s.len() == 9 {
                                            -1
                                        } else if s[9] == 'Z' {
                                            if s.len() == 10 {
                                                -1
                                            } else if s[10] == 'e' {
                                                if s.len() == 11 {
                                                    -1
                                                } else if s[11] == 'r' {
                                                    if s.len() == 12 {
                                                        -1
                                                    } else if s[12] == 'o' {
                                                        141
                                                    } else {
                                                        -1
                                                    }
                                                } else {
                                                    -1
                                                }
                                            } else {
                                                -1
                                            }
                                        } else {
                                            -1
                                        }
                                    } else {
                                        -1
                                    }
                                } else {
                                    -1
                                }
                            } else if s[6] == 'Z' {
                                if s.len() == 7 {
                                    -1
                                } else if s[7] == 'e' {
                                    if s.len() == 8 {
                                        -1
                                    } else if s[8] == 'r' {
                                        if s.len() == 9 {
                                            -1
                                        } else if s[9] == 'o' {
                                            140
                                        } else {
                                            -1
                                        }
                                    } else {
                                        -1
                                    }
                                } else {
                                    -1
                                }
                            } else {
                                -1
                            }
                        } else {
                            -1
                        }
                    } else {
                        -1
                    }
                } else {
                    -1
                }
            } else {
                -1
            }
        } else {
            -1
        }
    } else if s[0] == 'L' {
        if s.len() == 1 {
            -1
        } else if s[1] == 'e' {
            if s.len() == 2 {
                -1
            } else if s[2] == 'f' {
                if s.len() == 3 {
                    -1
                } else if s[3] == 't' {
                    if s.len() == 4 {
                        -1
                    } else if s[4] == 'S' {
                        if s.len() == 5 {
                            -1
                        } else if s[5] == 'h' {
                            if s.len() == 6 {
                                -1
                            } else if s[6] == 'i' {
                                if s.len() == 7 {
                                    -1
                                } else if s[7] == 'f' {
                                    if s.len() == 8 {
                                        -1
                                    } else if s[8] == 't' {
                                        if s.len() == 9 {
                                            -1
                                        } else if s[9] == 'I' {
                                            if s.len() == 10 {
                                                -1
                                            } else if s[10] == 'n' {
                                                if s.len() == 11 {
                                                    -1
                                                } else if s[11] == 't' {
                                                    if s.len() == 12 {
                                                        -1
                                                    } else if s[12] == '3' {
                                                        if s.len() == 13 {
                                                            -1
                                                        } else if s[13] == '2' {
                                                            67
                                                        } else {
                                                            -1
                                                        }
                                                    } else {
                                                        -1
                                                    }
                                                } else {
                                                    -1
                                                }
                                            } else {
                                                -1
                                            }
                                        } else {
                                            -1
                                        }
                                    } else {
                                        -1
                                    }
                                } else {
                                    -1
                                }
                            } else {
                                -1
                            }
                        } else {
                            -1
                        }
                    } else {
                        -1
                    }
                } else {
                    -1
                }
            } else if s[2] == 'n' {
                if s.len() == 3 {
                    -1
                } else if s[3] == 'g' {
                    if s.len() == 4 {
                        -1
                    } else if s[4] == 't' {
                        if s.len() == 5 {
                            -1
                        } else if s[5] == 'h' {
                            if s.len() == 6 {
                                -1
                            } else if s[6] == '2' {
                                80
                            } else if s[6] == '3' {
                                93
                            } else if s[6] == '4' {
                                105
                            } else {
                                -1
                            }
                        } else {
                            -1
                        }
                    } else {
                        -1
                    }
                } else {
                    -1
                }
            } else if s[2] == 'r' {
                if s.len() == 3 {
                    -1
                } else if s[3] == 'p' {
                    if s.len() == 4 {
                        -1
                    } else if s[4] == 'D' {
                        if s.len() == 5 {
                            -1
                        } else if s[5] == 'e' {
                            if s.len() == 6 {
                                -1
                            } else if s[6] == 'c' {
                                if s.len() == 7 {
                                    -1
                                } else if s[7] == '3' {
                                    if s.len() == 8 {
                                        -1
                                    } else if s[8] == '2' {
                                        36
                                    } else {
                                        -1
                                    }
                                } else {
                                    -1
                                }
                            } else {
                                -1
                            }
                        } else {
                            -1
                        }
                    } else {
                        -1
                    }
                } else {
                    -1
                }
            } else if s[2] == 's' {
                if s.len() == 3 {
                    -1
                } else if s[3] == 's' {
                    if s.len() == 4 {
                        -1
                    } else if s[4] == 'D' {
                        if s.len() == 5 {
                            -1
                        } else if s[5] == 'e' {
                            if s.len() == 6 {
                                -1
                            } else if s[6] == 'c' {
                                if s.len() == 7 {
                                    -1
                                } else if s[7] == '3' {
                                    if s.len() == 8 {
                                        -1
                                    } else if s[8] == '2' {
                                        40
                                    } else {
                                        -1
                                    }
                                } else {
                                    -1
                                }
                            } else {
                                -1
                            }
                        } else {
                            -1
                        }
                    } else if s[4] == 'E' {
                        if s.len() == 5 {
                            -1
                        } else if s[5] == 'q' {
                            if s.len() == 6 {
                                -1
                            } else if s[6] == 'D' {
                                if s.len() == 7 {
                                    -1
                                } else if s[7] == 'e' {
                                    if s.len() == 8 {
                                        -1
                                    } else if s[8] == 'c' {
                                        if s.len() == 9 {
                                            -1
                                        } else if s[9] == '3' {
                                            if s.len() == 10 {
                                                -1
                                            } else if s[10] == '2' {
                                                42
                                            } else {
                                                -1
                                            }
                                        } else {
                                            -1
                                        }
                                    } else {
                                        -1
                                    }
                                } else {
                                    -1
                                }
                            } else if s[6] == 'I' {
                                if s.len() == 7 {
                                    -1
                                } else if s[7] == 'n' {
                                    if s.len() == 8 {
                                        -1
                                    } else if s[8] == 't' {
                                        if s.len() == 9 {
                                            -1
                                        } else if s[9] == '3' {
                                            if s.len() == 10 {
                                                -1
                                            } else if s[10] == '2' {
                                                60
                                            } else {
                                                -1
                                            }
                                        } else {
                                            -1
                                        }
                                    } else {
                                        -1
                                    }
                                } else {
                                    -1
                                }
                            } else {
                                -1
                            }
                        } else {
                            -1
                        }
                    } else if s[4] == 'I' {
                        if s.len() == 5 {
                            -1
                        } else if s[5] == 'n' {
                            if s.len() == 6 {
                                -1
                            } else if s[6] == 't' {
                                if s.len() == 7 {
                                    -1
                                } else if s[7] == '3' {
                                    if s.len() == 8 {
                                        -1
                                    } else if s[8] == '2' {
                                        58
                                    } else {
                                        -1
                                    }
                                } else {
                                    -1
                                }
                            } else {
                                -1
                            }
                        } else {
                            -1
                        }
                    } else {
                        -1
                    }
                } else {
                    -1
                }
            } else {
                -1
            }
        } else if s[1] == 'o' {
            if s.len() == 2 {
                -1
            } else if s[2] == 'a' {
                if s.len() == 3 {
                    -1
                } else if s[3] == 'd' {
                    if s.len() == 4 {
                        145
                    } else if s[4] == 'L' {
                        if s.len() == 5 {
                            -1
                        } else if s[5] == 'o' {
                            if s.len() == 6 {
                                -1
                            } else if s[6] == 'c' {
                                if s.len() == 7 {
                                    -1
                                } else if s[7] == 'a' {
                                    if s.len() == 8 {
                                        -1
                                    } else if s[8] == 'l' {
                                        if s.len() == 9 {
                                            -1
                                        } else if s[9] == 'D' {
                                            if s.len() == 10 {
                                                -1
                                            } else if s[10] == 'e' {
                                                if s.len() == 11 {
                                                    -1
                                                } else if s[11] == 'c' {
                                                    if s.len() == 12 {
                                                        -1
                                                    } else if s[12] == '3' {
                                                        if s.len() == 13 {
                                                            -1
                                                        } else if s[13] == '2' {
                                                            125
                                                        } else {
                                                            -1
                                                        }
                                                    } else {
                                                        -1
                                                    }
                                                } else {
                                                    -1
                                                }
                                            } else {
                                                -1
                                            }
                                        } else if s[9] == 'I' {
                                            if s.len() == 10 {
                                                -1
                                            } else if s[10] == 'n' {
                                                if s.len() == 11 {
                                                    -1
                                                } else if s[11] == 't' {
                                                    if s.len() == 12 {
                                                        -1
                                                    } else if s[12] == '3' {
                                                        if s.len() == 13 {
                                                            -1
                                                        } else if s[13] == '2' {
                                                            127
                                                        } else {
                                                            -1
                                                        }
                                                    } else {
                                                        -1
                                                    }
                                                } else {
                                                    -1
                                                }
                                            } else {
                                                -1
                                            }
                                        } else if s[9] == 'M' {
                                            if s.len() == 10 {
                                                -1
                                            } else if s[10] == 'a' {
                                                if s.len() == 11 {
                                                    -1
                                                } else if s[11] == 't' {
                                                    if s.len() == 12 {
                                                        -1
                                                    } else if s[12] == '3' {
                                                        135
                                                    } else {
                                                        -1
                                                    }
                                                } else {
                                                    -1
                                                }
                                            } else {
                                                -1
                                            }
                                        } else if s[9] == 'V' {
                                            if s.len() == 10 {
                                                -1
                                            } else if s[10] == 'e' {
                                                if s.len() == 11 {
                                                    -1
                                                } else if s[11] == 'c' {
                                                    if s.len() == 12 {
                                                        -1
                                                    } else if s[12] == '2' {
                                                        129
                                                    } else if s[12] == '3' {
                                                        131
                                                    } else if s[12] == '4' {
                                                        133
                                                    } else {
                                                        -1
                                                    }
                                                } else {
                                                    -1
                                                }
                                            } else {
                                                -1
                                            }
                                        } else {
                                            -1
                                        }
                                    } else {
                                        -1
                                    }
                                } else {
                                    -1
                                }
                            } else {
                                -1
                            }
                        } else {
                            -1
                        }
                    } else {
                        -1
                    }
                } else {
                    -1
                }
            } else {
                -1
            }
        } else {
            -1
        }
    } else if s[0] == 'M' {
        if s.len() == 1 {
            -1
        } else if s[1] == 'a' {
            if s.len() == 2 {
                -1
            } else if s[2] == 'x' {
                if s.len() == 3 {
                    -1
                } else if s[3] == 'D' {
                    if s.len() == 4 {
                        -1
                    } else if s[4] == 'e' {
                        if s.len() == 5 {
                            -1
                        } else if s[5] == 'c' {
                            if s.len() == 6 {
                                -1
                            } else if s[6] == '3' {
                                if s.len() == 7 {
                                    -1
                                } else if s[7] == '2' {
                                    20
                                } else {
                                    -1
                                }
                            } else {
                                -1
                            }
                        } else {
                            -1
                        }
                    } else {
                        -1
                    }
                } else if s[3] == 'I' {
                    if s.len() == 4 {
                        -1
                    } else if s[4] == 'n' {
                        if s.len() == 5 {
                            -1
                        } else if s[5] == 't' {
                            if s.len() == 6 {
                                -1
                            } else if s[6] == '3' {
                                if s.len() == 7 {
                                    -1
                                } else if s[7] == '2' {
                                    56
                                } else {
                                    -1
                                }
                            } else {
                                -1
                            }
                        } else {
                            -1
                        }
                    } else {
                        -1
                    }
                } else {
                    -1
                }
            } else {
                -1
            }
        } else if s[1] == 'i' {
            if s.len() == 2 {
                -1
            } else if s[2] == 'n' {
                if s.len() == 3 {
                    -1
                } else if s[3] == 'D' {
                    if s.len() == 4 {
                        -1
                    } else if s[4] == 'e' {
                        if s.len() == 5 {
                            -1
                        } else if s[5] == 'c' {
                            if s.len() == 6 {
                                -1
                            } else if s[6] == '3' {
                                if s.len() == 7 {
                                    -1
                                } else if s[7] == '2' {
                                    19
                                } else {
                                    -1
                                }
                            } else {
                                -1
                            }
                        } else {
                            -1
                        }
                    } else {
                        -1
                    }
                } else if s[3] == 'I' {
                    if s.len() == 4 {
                        -1
                    } else if s[4] == 'n' {
                        if s.len() == 5 {
                            -1
                        } else if s[5] == 't' {
                            if s.len() == 6 {
                                -1
                            } else if s[6] == '3' {
                                if s.len() == 7 {
                                    -1
                                } else if s[7] == '2' {
                                    55
                                } else {
                                    -1
                                }
                            } else {
                                -1
                            }
                        } else {
                            -1
                        }
                    } else {
                        -1
                    }
                } else {
                    -1
                }
            } else {
                -1
            }
        } else if s[1] == 'o' {
            if s.len() == 2 {
                -1
            } else if s[2] == 'd' {
                if s.len() == 3 {
                    -1
                } else if s[3] == 'D' {
                    if s.len() == 4 {
                        -1
                    } else if s[4] == 'e' {
                        if s.len() == 5 {
                            -1
                        } else if s[5] == 'c' {
                            if s.len() == 6 {
                                -1
                            } else if s[6] == '3' {
                                if s.len() == 7 {
                                    -1
                                } else if s[7] == '2' {
                                    30
                                } else {
                                    -1
                                }
                            } else {
                                -1
                            }
                        } else {
                            -1
                        }
                    } else {
                        -1
                    }
                } else if s[3] == 'I' {
                    if s.len() == 4 {
                        -1
                    } else if s[4] == 'n' {
                        if s.len() == 5 {
                            -1
                        } else if s[5] == 't' {
                            if s.len() == 6 {
                                -1
                            } else if s[6] == '3' {
                                if s.len() == 7 {
                                    -1
                                } else if s[7] == '2' {
                                    52
                                } else {
                                    -1
                                }
                            } else {
                                -1
                            }
                        } else {
                            -1
                        }
                    } else {
                        -1
                    }
                } else if s[3] == 'V' {
                    if s.len() == 4 {
                        -1
                    } else if s[4] == 'e' {
                        if s.len() == 5 {
                            -1
                        } else if s[5] == 'c' {
                            if s.len() == 6 {
                                -1
                            } else if s[6] == '2' {
                                76
                            } else if s[6] == '3' {
                                88
                            } else if s[6] == '4' {
                                101
                            } else {
                                -1
                            }
                        } else {
                            -1
                        }
                    } else {
                        -1
                    }
                } else {
                    -1
                }
            } else {
                -1
            }
        } else if s[1] == 'u' {
            if s.len() == 2 {
                -1
            } else if s[2] == 'l' {
                if s.len() == 3 {
                    -1
                } else if s[3] == 'D' {
                    if s.len() == 4 {
                        -1
                    } else if s[4] == 'e' {
                        if s.len() == 5 {
                            -1
                        } else if s[5] == 'c' {
                            if s.len() == 6 {
                                -1
                            } else if s[6] == '3' {
                                if s.len() == 7 {
                                    -1
                                } else if s[7] == '2' {
                                    15
                                } else {
                                    -1
                                }
                            } else {
                                -1
                            }
                        } else {
                            -1
                        }
                    } else {
                        -1
                    }
                } else if s[3] == 'I' {
                    if s.len() == 4 {
                        -1
                    } else if s[4] == 'n' {
                        if s.len() == 5 {
                            -1
                        } else if s[5] == 't' {
                            if s.len() == 6 {
                                -1
                            } else if s[6] == '3' {
                                if s.len() == 7 {
                                    -1
                                } else if s[7] == '2' {
                                    50
                                } else {
                                    -1
                                }
                            } else {
                                -1
                            }
                        } else {
                            -1
                        }
                    } else {
                        -1
                    }
                } else if s[3] == 'M' {
                    if s.len() == 4 {
                        -1
                    } else if s[4] == 'a' {
                        if s.len() == 5 {
                            -1
                        } else if s[5] == 't' {
                            if s.len() == 6 {
                                -1
                            } else if s[6] == '3' {
                                if s.len() == 7 {
                                    111
                                } else if s[7] == 'S' {
                                    if s.len() == 8 {
                                        -1
                                    } else if s[8] == 'c' {
                                        if s.len() == 9 {
                                            -1
                                        } else if s[9] == 'a' {
                                            if s.len() == 10 {
                                                -1
                                            } else if s[10] == 'l' {
                                                if s.len() == 11 {
                                                    -1
                                                } else if s[11] == 'a' {
                                                    if s.len() == 12 {
                                                        -1
                                                    } else if s[12] == 'r' {
                                                        112
                                                    } else {
                                                        -1
                                                    }
                                                } else {
                                                    -1
                                                }
                                            } else {
                                                -1
                                            }
                                        } else {
                                            -1
                                        }
                                    } else {
                                        -1
                                    }
                                } else if s[7] == 'V' {
                                    if s.len() == 8 {
                                        -1
                                    } else if s[8] == 'e' {
                                        if s.len() == 9 {
                                            -1
                                        } else if s[9] == 'c' {
                                            if s.len() == 10 {
                                                -1
                                            } else if s[10] == '3' {
                                                114
                                            } else {
                                                -1
                                            }
                                        } else {
                                            -1
                                        }
                                    } else {
                                        -1
                                    }
                                } else {
                                    -1
                                }
                            } else {
                                -1
                            }
                        } else {
                            -1
                        }
                    } else {
                        -1
                    }
                } else if s[3] == 'V' {
                    if s.len() == 4 {
                        -1
                    } else if s[4] == 'e' {
                        if s.len() == 5 {
                            -1
                        } else if s[5] == 'c' {
                            if s.len() == 6 {
                                -1
                            } else if s[6] == '2' {
                                if s.len() == 7 {
                                    74
                                } else if s[7] == 'S' {
                                    if s.len() == 8 {
                                        -1
                                    } else if s[8] == 'c' {
                                        if s.len() == 9 {
                                            -1
                                        } else if s[9] == 'a' {
                                            if s.len() == 10 {
                                                -1
                                            } else if s[10] == 'l' {
                                                if s.len() == 11 {
                                                    -1
                                                } else if s[11] == 'a' {
                                                    if s.len() == 12 {
                                                        -1
                                                    } else if s[12] == 'r' {
                                                        77
                                                    } else {
                                                        -1
                                                    }
                                                } else {
                                                    -1
                                                }
                                            } else {
                                                -1
                                            }
                                        } else {
                                            -1
                                        }
                                    } else {
                                        -1
                                    }
                                } else {
                                    -1
                                }
                            } else if s[6] == '3' {
                                if s.len() == 7 {
                                    86
                                } else if s[7] == 'S' {
                                    if s.len() == 8 {
                                        -1
                                    } else if s[8] == 'c' {
                                        if s.len() == 9 {
                                            -1
                                        } else if s[9] == 'a' {
                                            if s.len() == 10 {
                                                -1
                                            } else if s[10] == 'l' {
                                                if s.len() == 11 {
                                                    -1
                                                } else if s[11] == 'a' {
                                                    if s.len() == 12 {
                                                        -1
                                                    } else if s[12] == 'r' {
                                                        89
                                                    } else {
                                                        -1
                                                    }
                                                } else {
                                                    -1
                                                }
                                            } else {
                                                -1
                                            }
                                        } else {
                                            -1
                                        }
                                    } else {
                                        -1
                                    }
                                } else {
                                    -1
                                }
                            } else if s[6] == '4' {
                                if s.len() == 7 {
                                    99
                                } else if s[7] == 'S' {
                                    if s.len() == 8 {
                                        -1
                                    } else if s[8] == 'c' {
                                        if s.len() == 9 {
                                            -1
                                        } else if s[9] == 'a' {
                                            if s.len() == 10 {
                                                -1
                                            } else if s[10] == 'l' {
                                                if s.len() == 11 {
                                                    -1
                                                } else if s[11] == 'a' {
                                                    if s.len() == 12 {
                                                        -1
                                                    } else if s[12] == 'r' {
                                                        102
                                                    } else {
                                                        -1
                                                    }
                                                } else {
                                                    -1
                                                }
                                            } else {
                                                -1
                                            }
                                        } else {
                                            -1
                                        }
                                    } else {
                                        -1
                                    }
                                } else {
                                    -1
                                }
                            } else {
                                -1
                            }
                        } else {
                            -1
                        }
                    } else {
                        -1
                    }
                } else {
                    -1
                }
            } else {
                -1
            }
        } else {
            -1
        }
    } else if s[0] == 'N' {
        if s.len() == 1 {
            -1
        } else if s[1] == 'e' {
            if s.len() == 2 {
                -1
            } else if s[2] == 'g' {
                if s.len() == 3 {
                    -1
                } else if s[3] == 'D' {
                    if s.len() == 4 {
                        -1
                    } else if s[4] == 'e' {
                        if s.len() == 5 {
                            -1
                        } else if s[5] == 'c' {
                            if s.len() == 6 {
                                -1
                            } else if s[6] == '3' {
                                if s.len() == 7 {
                                    -1
                                } else if s[7] == '2' {
                                    17
                                } else {
                                    -1
                                }
                            } else {
                                -1
                            }
                        } else {
                            -1
                        }
                    } else {
                        -1
                    }
                } else if s[3] == 'I' {
                    if s.len() == 4 {
                        -1
                    } else if s[4] == 'n' {
                        if s.len() == 5 {
                            -1
                        } else if s[5] == 't' {
                            if s.len() == 6 {
                                -1
                            } else if s[6] == '3' {
                                if s.len() == 7 {
                                    -1
                                } else if s[7] == '2' {
                                    53
                                } else {
                                    -1
                                }
                            } else {
                                -1
                            }
                        } else {
                            -1
                        }
                    } else {
                        -1
                    }
                } else if s[3] == 'M' {
                    if s.len() == 4 {
                        -1
                    } else if s[4] == 'a' {
                        if s.len() == 5 {
                            -1
                        } else if s[5] == 't' {
                            if s.len() == 6 {
                                -1
                            } else if s[6] == '3' {
                                110
                            } else {
                                -1
                            }
                        } else {
                            -1
                        }
                    } else {
                        -1
                    }
                } else if s[3] == 'V' {
                    if s.len() == 4 {
                        -1
                    } else if s[4] == 'e' {
                        if s.len() == 5 {
                            -1
                        } else if s[5] == 'c' {
                            if s.len() == 6 {
                                -1
                            } else if s[6] == '2' {
                                73
                            } else if s[6] == '3' {
                                85
                            } else if s[6] == '4' {
                                98
                            } else {
                                -1
                            }
                        } else {
                            -1
                        }
                    } else {
                        -1
                    }
                } else {
                    -1
                }
            } else {
                -1
            }
        } else if s[1] == 'o' {
            if s.len() == 2 {
                -1
            } else if s[2] == 'r' {
                if s.len() == 3 {
                    -1
                } else if s[3] == 'm' {
                    if s.len() == 4 {
                        -1
                    } else if s[4] == 'a' {
                        if s.len() == 5 {
                            -1
                        } else if s[5] == 'l' {
                            if s.len() == 6 {
                                -1
                            } else if s[6] == 'i' {
                                if s.len() == 7 {
                                    -1
                                } else if s[7] == 'z' {
                                    if s.len() == 8 {
                                        -1
                                    } else if s[8] == 'e' {
                                        if s.len() == 9 {
                                            -1
                                        } else if s[9] == '2' {
                                            81
                                        } else if s[9] == '3' {
                                            94
                                        } else if s[9] == '4' {
                                            106
                                        } else {
                                            -1
                                        }
                                    } else {
                                        -1
                                    }
                                } else {
                                    -1
                                }
                            } else {
                                -1
                            }
                        } else {
                            -1
                        }
                    } else {
                        -1
                    }
                } else {
                    -1
                }
            } else if s[2] == 't' {
                if s.len() == 3 {
                    -1
                } else if s[3] == 'D' {
                    if s.len() == 4 {
                        -1
                    } else if s[4] == 'e' {
                        if s.len() == 5 {
                            -1
                        } else if s[5] == 'c' {
                            if s.len() == 6 {
                                -1
                            } else if s[6] == '3' {
                                if s.len() == 7 {
                                    -1
                                } else if s[7] == '2' {
                                    47
                                } else {
                                    -1
                                }
                            } else {
                                -1
                            }
                        } else {
                            -1
                        }
                    } else {
                        -1
                    }
                } else if s[3] == 'E' {
                    if s.len() == 4 {
                        -1
                    } else if s[4] == 'q' {
                        if s.len() == 5 {
                            -1
                        } else if s[5] == 'D' {
                            if s.len() == 6 {
                                -1
                            } else if s[6] == 'e' {
                                if s.len() == 7 {
                                    -1
                                } else if s[7] == 'c' {
                                    if s.len() == 8 {
                                        -1
                                    } else if s[8] == '3' {
                                        if s.len() == 9 {
                                            -1
                                        } else if s[9] == '2' {
                                            44
                                        } else {
                                            -1
                                        }
                                    } else {
                                        -1
                                    }
                                } else {
                                    -1
                                }
                            } else {
                                -1
                            }
                        } else if s[5] == 'I' {
                            if s.len() == 6 {
                                -1
                            } else if s[6] == 'n' {
                                if s.len() == 7 {
                                    -1
                                } else if s[7] == 't' {
                                    if s.len() == 8 {
                                        -1
                                    } else if s[8] == '3' {
                                        if s.len() == 9 {
                                            -1
                                        } else if s[9] == '2' {
                                            62
                                        } else {
                                            -1
                                        }
                                    } else {
                                        -1
                                    }
                                } else {
                                    -1
                                }
                            } else {
                                -1
                            }
                        } else {
                            -1
                        }
                    } else {
                        -1
                    }
                } else {
                    -1
                }
            } else {
                -1
            }
        } else {
            -1
        }
    } else if s[0] == 'O' {
        if s.len() == 1 {
            -1
        } else if s[1] == 'r' {
            if s.len() == 2 {
                -1
            } else if s[2] == 'D' {
                if s.len() == 3 {
                    -1
                } else if s[3] == 'e' {
                    if s.len() == 4 {
                        -1
                    } else if s[4] == 'c' {
                        if s.len() == 5 {
                            -1
                        } else if s[5] == '3' {
                            if s.len() == 6 {
                                -1
                            } else if s[6] == '2' {
                                46
                            } else {
                                -1
                            }
                        } else {
                            -1
                        }
                    } else {
                        -1
                    }
                } else {
                    -1
                }
            } else {
                -1
            }
        } else {
            -1
        }
    } else if s[0] == 'P' {
        if s.len() == 1 {
            -1
        } else if s[1] == 'e' {
            if s.len() == 2 {
                -1
            } else if s[2] == 'r' {
                if s.len() == 3 {
                    -1
                } else if s[3] == 'l' {
                    if s.len() == 4 {
                        -1
                    } else if s[4] == 'i' {
                        if s.len() == 5 {
                            -1
                        } else if s[5] == 'n' {
                            if s.len() == 6 {
                                -1
                            } else if s[6] == '3' {
                                38
                            } else {
                                -1
                            }
                        } else {
                            -1
                        }
                    } else {
                        -1
                    }
                } else {
                    -1
                }
            } else {
                -1
            }
        } else if s[1] == 'o' {
            if s.len() == 2 {
                -1
            } else if s[2] == 'w' {
                if s.len() == 3 {
                    -1
                } else if s[3] == 'D' {
                    if s.len() == 4 {
                        -1
                    } else if s[4] == 'e' {
                        if s.len() == 5 {
                            -1
                        } else if s[5] == 'c' {
                            if s.len() == 6 {
                                -1
                            } else if s[6] == '3' {
                                if s.len() == 7 {
                                    -1
                                } else if s[7] == '2' {
                                    31
                                } else {
                                    -1
                                }
                            } else {
                                -1
                            }
                        } else {
                            -1
                        }
                    } else {
                        -1
                    }
                } else {
                    -1
                }
            } else {
                -1
            }
        } else if s[1] == 'u' {
            if s.len() == 2 {
                -1
            } else if s[2] == 's' {
                if s.len() == 3 {
                    -1
                } else if s[3] == 'h' {
                    if s.len() == 4 {
                        0
                    } else if s[4] == 'I' {
                        if s.len() == 5 {
                            -1
                        } else if s[5] == 'n' {
                            if s.len() == 6 {
                                -1
                            } else if s[6] == 't' {
                                if s.len() == 7 {
                                    -1
                                } else if s[7] == '3' {
                                    if s.len() == 8 {
                                        -1
                                    } else if s[8] == '2' {
                                        1
                                    } else {
                                        -1
                                    }
                                } else {
                                    -1
                                }
                            } else {
                                -1
                            }
                        } else {
                            -1
                        }
                    } else {
                        -1
                    }
                } else {
                    -1
                }
            } else {
                -1
            }
        } else {
            -1
        }
    } else if s[0] == 'R' {
        if s.len() == 1 {
            -1
        } else if s[1] == 'e' {
            if s.len() == 2 {
                -1
            } else if s[2] == 't' {
                if s.len() == 3 {
                    -1
                } else if s[3] == 'u' {
                    if s.len() == 4 {
                        -1
                    } else if s[4] == 'r' {
                        if s.len() == 5 {
                            -1
                        } else if s[5] == 'n' {
                            144
                        } else {
                            -1
                        }
                    } else {
                        -1
                    }
                } else {
                    -1
                }
            } else {
                -1
            }
        } else if s[1] == 'i' {
            if s.len() == 2 {
                -1
            } else if s[2] == 'g' {
                if s.len() == 3 {
                    -1
                } else if s[3] == 'h' {
                    if s.len() == 4 {
                        -1
                    } else if s[4] == 't' {
                        if s.len() == 5 {
                            -1
                        } else if s[5] == 'S' {
                            if s.len() == 6 {
                                -1
                            } else if s[6] == 'h' {
                                if s.len() == 7 {
                                    -1
                                } else if s[7] == 'i' {
                                    if s.len() == 8 {
                                        -1
                                    } else if s[8] == 'f' {
                                        if s.len() == 9 {
                                            -1
                                        } else if s[9] == 't' {
                                            if s.len() == 10 {
                                                -1
                                            } else if s[10] == 'I' {
                                                if s.len() == 11 {
                                                    -1
                                                } else if s[11] == 'n' {
                                                    if s.len() == 12 {
                                                        -1
                                                    } else if s[12] == 't' {
                                                        if s.len() == 13 {
                                                            -1
                                                        } else if s[13] == '3' {
                                                            if s.len() == 14 {
                                                                -1
                                                            } else if s[14] == '2' {
                                                                68
                                                            } else {
                                                                -1
                                                            }
                                                        } else {
                                                            -1
                                                        }
                                                    } else {
                                                        -1
                                                    }
                                                } else {
                                                    -1
                                                }
                                            } else {
                                                -1
                                            }
                                        } else {
                                            -1
                                        }
                                    } else {
                                        -1
                                    }
                                } else {
                                    -1
                                }
                            } else {
                                -1
                            }
                        } else {
                            -1
                        }
                    } else {
                        -1
                    }
                } else {
                    -1
                }
            } else {
                -1
            }
        } else {
            -1
        }
    } else if s[0] == 'S' {
        if s.len() == 1 {
            -1
        } else if s[1] == 'a' {
            if s.len() == 2 {
                -1
            } else if s[2] == 't' {
                if s.len() == 3 {
                    -1
                } else if s[3] == 'u' {
                    if s.len() == 4 {
                        -1
                    } else if s[4] == 'r' {
                        if s.len() == 5 {
                            -1
                        } else if s[5] == 'a' {
                            if s.len() == 6 {
                                -1
                            } else if s[6] == 't' {
                                if s.len() == 7 {
                                    -1
                                } else if s[7] == 'e' {
                                    if s.len() == 8 {
                                        -1
                                    } else if s[8] == 'D' {
                                        if s.len() == 9 {
                                            -1
                                        } else if s[9] == 'e' {
                                            if s.len() == 10 {
                                                -1
                                            } else if s[10] == 'c' {
                                                if s.len() == 11 {
                                                    -1
                                                } else if s[11] == '3' {
                                                    if s.len() == 12 {
                                                        -1
                                                    } else if s[12] == '2' {
                                                        33
                                                    } else {
                                                        -1
                                                    }
                                                } else {
                                                    -1
                                                }
                                            } else {
                                                -1
                                            }
                                        } else {
                                            -1
                                        }
                                    } else {
                                        -1
                                    }
                                } else {
                                    -1
                                }
                            } else {
                                -1
                            }
                        } else {
                            -1
                        }
                    } else {
                        -1
                    }
                } else {
                    -1
                }
            } else {
                -1
            }
        } else if s[1] == 'e' {
            if s.len() == 2 {
                -1
            } else if s[2] == 'l' {
                if s.len() == 3 {
                    -1
                } else if s[3] == 'e' {
                    if s.len() == 4 {
                        -1
                    } else if s[4] == 'c' {
                        if s.len() == 5 {
                            -1
                        } else if s[5] == 't' {
                            142
                        } else {
                            -1
                        }
                    } else {
                        -1
                    }
                } else {
                    -1
                }
            } else {
                -1
            }
        } else if s[1] == 'i' {
            if s.len() == 2 {
                -1
            } else if s[2] == 'g' {
                if s.len() == 3 {
                    -1
                } else if s[3] == 'n' {
                    if s.len() == 4 {
                        -1
                    } else if s[4] == 'D' {
                        if s.len() == 5 {
                            -1
                        } else if s[5] == 'e' {
                            if s.len() == 6 {
                                -1
                            } else if s[6] == 'c' {
                                if s.len() == 7 {
                                    -1
                                } else if s[7] == '3' {
                                    if s.len() == 8 {
                                        -1
                                    } else if s[8] == '2' {
                                        32
                                    } else {
                                        -1
                                    }
                                } else {
                                    -1
                                }
                            } else {
                                -1
                            }
                        } else {
                            -1
                        }
                    } else {
                        -1
                    }
                } else {
                    -1
                }
            } else if s[2] == 'n' {
                if s.len() == 3 {
                    -1
                } else if s[3] == 'D' {
                    if s.len() == 4 {
                        -1
                    } else if s[4] == 'e' {
                        if s.len() == 5 {
                            -1
                        } else if s[5] == 'c' {
                            if s.len() == 6 {
                                -1
                            } else if s[6] == '3' {
                                if s.len() == 7 {
                                    -1
                                } else if s[7] == '2' {
                                    21
                                } else {
                                    -1
                                }
                            } else {
                                -1
                            }
                        } else {
                            -1
                        }
                    } else {
                        -1
                    }
                } else {
                    -1
                }
            } else {
                -1
            }
        } else if s[1] == 'm' {
            if s.len() == 2 {
                -1
            } else if s[2] == 'o' {
                if s.len() == 3 {
                    -1
                } else if s[3] == 'o' {
                    if s.len() == 4 {
                        -1
                    } else if s[4] == 't' {
                        if s.len() == 5 {
                            -1
                        } else if s[5] == 'h' {
                            if s.len() == 6 {
                                -1
                            } else if s[6] == 's' {
                                if s.len() == 7 {
                                    -1
                                } else if s[7] == 't' {
                                    if s.len() == 8 {
                                        -1
                                    } else if s[8] == 'e' {
                                        if s.len() == 9 {
                                            -1
                                        } else if s[9] == 'p' {
                                            if s.len() == 10 {
                                                -1
                                            } else if s[10] == 'D' {
                                                if s.len() == 11 {
                                                    -1
                                                } else if s[11] == 'e' {
                                                    if s.len() == 12 {
                                                        -1
                                                    } else if s[12] == 'c' {
                                                        if s.len() == 13 {
                                                            -1
                                                        } else if s[13] == '3' {
                                                            if s.len() == 14 {
                                                                -1
                                                            } else if s[14] == '2' {
                                                                37
                                                            } else {
                                                                -1
                                                            }
                                                        } else {
                                                            -1
                                                        }
                                                    } else {
                                                        -1
                                                    }
                                                } else {
                                                    -1
                                                }
                                            } else {
                                                -1
                                            }
                                        } else {
                                            -1
                                        }
                                    } else {
                                        -1
                                    }
                                } else {
                                    -1
                                }
                            } else {
                                -1
                            }
                        } else {
                            -1
                        }
                    } else {
                        -1
                    }
                } else {
                    -1
                }
            } else {
                -1
            }
        } else if s[1] == 'q' {
            if s.len() == 2 {
                -1
            } else if s[2] == 'r' {
                if s.len() == 3 {
                    -1
                } else if s[3] == 't' {
                    if s.len() == 4 {
                        -1
                    } else if s[4] == 'D' {
                        if s.len() == 5 {
                            -1
                        } else if s[5] == 'e' {
                            if s.len() == 6 {
                                -1
                            } else if s[6] == 'c' {
                                if s.len() == 7 {
                                    -1
                                } else if s[7] == '3' {
                                    if s.len() == 8 {
                                        -1
                                    } else if s[8] == '2' {
                                        26
                                    } else {
                                        -1
                                    }
                                } else {
                                    -1
                                }
                            } else {
                                -1
                            }
                        } else {
                            -1
                        }
                    } else {
                        -1
                    }
                } else {
                    -1
                }
            } else {
                -1
            }
        } else if s[1] == 't' {
            if s.len() == 2 {
                -1
            } else if s[2] == 'e' {
                if s.len() == 3 {
                    -1
                } else if s[3] == 'p' {
                    if s.len() == 4 {
                        -1
                    } else if s[4] == 'D' {
                        if s.len() == 5 {
                            -1
                        } else if s[5] == 'e' {
                            if s.len() == 6 {
                                -1
                            } else if s[6] == 'c' {
                                if s.len() == 7 {
                                    -1
                                } else if s[7] == '3' {
                                    if s.len() == 8 {
                                        -1
                                    } else if s[8] == '2' {
                                        35
                                    } else {
                                        -1
                                    }
                                } else {
                                    -1
                                }
                            } else {
                                -1
                            }
                        } else {
                            -1
                        }
                    } else {
                        -1
                    }
                } else {
                    -1
                }
            } else if s[2] == 'o' {
                if s.len() == 3 {
                    -1
                } else if s[3] == 'r' {
                    if s.len() == 4 {
                        -1
                    } else if s[4] == 'e' {
                        if s.len() == 5 {
                            -1
                        } else if s[5] == 'L' {
                            if s.len() == 6 {
                                -1
                            } else if s[6] == 'o' {
                                if s.len() == 7 {
                                    -1
                                } else if s[7] == 'c' {
                                    if s.len() == 8 {
                                        -1
                                    } else if s[8] == 'a' {
                                        if s.len() == 9 {
                                            -1
                                        } else if s[9] == 'l' {
                                            if s.len() == 10 {
                                                -1
                                            } else if s[10] == 'D' {
                                                if s.len() == 11 {
                                                    -1
                                                } else if s[11] == 'e' {
                                                    if s.len() == 12 {
                                                        -1
                                                    } else if s[12] == 'c' {
                                                        if s.len() == 13 {
                                                            -1
                                                        } else if s[13] == '3' {
                                                            if s.len() == 14 {
                                                                -1
                                                            } else if s[14] == '2' {
                                                                126
                                                            } else {
                                                                -1
                                                            }
                                                        } else {
                                                            -1
                                                        }
                                                    } else {
                                                        -1
                                                    }
                                                } else {
                                                    -1
                                                }
                                            } else if s[10] == 'I' {
                                                if s.len() == 11 {
                                                    -1
                                                } else if s[11] == 'n' {
                                                    if s.len() == 12 {
                                                        -1
                                                    } else if s[12] == 't' {
                                                        if s.len() == 13 {
                                                            -1
                                                        } else if s[13] == '3' {
                                                            if s.len() == 14 {
                                                                -1
                                                            } else if s[14] == '2' {
                                                                128
                                                            } else {
                                                                -1
                                                            }
                                                        } else {
                                                            -1
                                                        }
                                                    } else {
                                                        -1
                                                    }
                                                } else {
                                                    -1
                                                }
                                            } else if s[10] == 'M' {
                                                if s.len() == 11 {
                                                    -1
                                                } else if s[11] == 'a' {
                                                    if s.len() == 12 {
                                                        -1
                                                    } else if s[12] == 't' {
                                                        if s.len() == 13 {
                                                            -1
                                                        } else if s[13] == '3' {
                                                            136
                                                        } else {
                                                            -1
                                                        }
                                                    } else {
                                                        -1
                                                    }
                                                } else {
                                                    -1
                                                }
                                            } else if s[10] == 'V' {
                                                if s.len() == 11 {
                                                    -1
                                                } else if s[11] == 'e' {
                                                    if s.len() == 12 {
                                                        -1
                                                    } else if s[12] == 'c' {
                                                        if s.len() == 13 {
                                                            -1
                                                        } else if s[13] == '2' {
                                                            130
                                                        } else if s[13] == '3' {
                                                            132
                                                        } else if s[13] == '4' {
                                                            134
                                                        } else {
                                                            -1
                                                        }
                                                    } else {
                                                        -1
                                                    }
                                                } else {
                                                    -1
                                                }
                                            } else {
                                                -1
                                            }
                                        } else {
                                            -1
                                        }
                                    } else {
                                        -1
                                    }
                                } else {
                                    -1
                                }
                            } else {
                                -1
                            }
                        } else {
                            -1
                        }
                    } else {
                        -1
                    }
                } else {
                    -1
                }
            } else {
                -1
            }
        } else if s[1] == 'u' {
            if s.len() == 2 {
                -1
            } else if s[2] == 'b' {
                if s.len() == 3 {
                    -1
                } else if s[3] == 'D' {
                    if s.len() == 4 {
                        -1
                    } else if s[4] == 'e' {
                        if s.len() == 5 {
                            -1
                        } else if s[5] == 'c' {
                            if s.len() == 6 {
                                -1
                            } else if s[6] == '3' {
                                if s.len() == 7 {
                                    -1
                                } else if s[7] == '2' {
                                    14
                                } else {
                                    -1
                                }
                            } else {
                                -1
                            }
                        } else {
                            -1
                        }
                    } else {
                        -1
                    }
                } else if s[3] == 'I' {
                    if s.len() == 4 {
                        -1
                    } else if s[4] == 'n' {
                        if s.len() == 5 {
                            -1
                        } else if s[5] == 't' {
                            if s.len() == 6 {
                                -1
                            } else if s[6] == '3' {
                                if s.len() == 7 {
                                    -1
                                } else if s[7] == '2' {
                                    49
                                } else {
                                    -1
                                }
                            } else {
                                -1
                            }
                        } else {
                            -1
                        }
                    } else {
                        -1
                    }
                } else if s[3] == 'M' {
                    if s.len() == 4 {
                        -1
                    } else if s[4] == 'a' {
                        if s.len() == 5 {
                            -1
                        } else if s[5] == 't' {
                            if s.len() == 6 {
                                -1
                            } else if s[6] == '3' {
                                109
                            } else {
                                -1
                            }
                        } else {
                            -1
                        }
                    } else {
                        -1
                    }
                } else if s[3] == 'V' {
                    if s.len() == 4 {
                        -1
                    } else if s[4] == 'e' {
                        if s.len() == 5 {
                            -1
                        } else if s[5] == 'c' {
                            if s.len() == 6 {
                                -1
                            } else if s[6] == '2' {
                                72
                            } else if s[6] == '3' {
                                84
                            } else if s[6] == '4' {
                                97
                            } else {
                                -1
                            }
                        } else {
                            -1
                        }
                    } else {
                        -1
                    }
                } else {
                    -1
                }
            } else {
                -1
            }
        } else if s[1] == 'w' {
            if s.len() == 2 {
                -1
            } else if s[2] == 'a' {
                if s.len() == 3 {
                    -1
                } else if s[3] == 'p' {
                    12
                } else {
                    -1
                }
            } else if s[2] == 'i' {
                if s.len() == 3 {
                    -1
                } else if s[3] == 'z' {
                    if s.len() == 4 {
                        -1
                    } else if s[4] == 'z' {
                        if s.len() == 5 {
                            -1
                        } else if s[5] == 'l' {
                            if s.len() == 6 {
                                -1
                            } else if s[6] == 'e' {
                                if s.len() == 7 {
                                    -1
                                } else if s[7] == '3' {
                                    if s.len() == 8 {
                                        -1
                                    } else if s[8] == 't' {
                                        if s.len() == 9 {
                                            -1
                                        } else if s[9] == 'o' {
                                            if s.len() == 10 {
                                                -1
                                            } else if s[10] == '2' {
                                                118
                                            } else if s[10] == '3' {
                                                119
                                            } else {
                                                -1
                                            }
                                        } else {
                                            -1
                                        }
                                    } else {
                                        -1
                                    }
                                } else if s[7] == '4' {
                                    if s.len() == 8 {
                                        -1
                                    } else if s[8] == 't' {
                                        if s.len() == 9 {
                                            -1
                                        } else if s[9] == 'o' {
                                            if s.len() == 10 {
                                                -1
                                            } else if s[10] == '2' {
                                                120
                                            } else if s[10] == '3' {
                                                121
                                            } else if s[10] == '4' {
                                                122
                                            } else {
                                                -1
                                            }
                                        } else {
                                            -1
                                        }
                                    } else {
                                        -1
                                    }
                                } else {
                                    -1
                                }
                            } else {
                                -1
                            }
                        } else {
                            -1
                        }
                    } else {
                        -1
                    }
                } else {
                    -1
                }
            } else {
                -1
            }
        } else {
            -1
        }
    } else if s[0] == 'T' {
        if s.len() == 1 {
            -1
        } else if s[1] == 'a' {
            if s.len() == 2 {
                -1
            } else if s[2] == 'n' {
                if s.len() == 3 {
                    -1
                } else if s[3] == 'D' {
                    if s.len() == 4 {
                        -1
                    } else if s[4] == 'e' {
                        if s.len() == 5 {
                            -1
                        } else if s[5] == 'c' {
                            if s.len() == 6 {
                                -1
                            } else if s[6] == '3' {
                                if s.len() == 7 {
                                    -1
                                } else if s[7] == '2' {
                                    23
                                } else {
                                    -1
                                }
                            } else {
                                -1
                            }
                        } else {
                            -1
                        }
                    } else {
                        -1
                    }
                } else {
                    -1
                }
            } else {
                -1
            }
        } else if s[1] == 'e' {
            if s.len() == 2 {
                -1
            } else if s[2] == 'x' {
                if s.len() == 3 {
                    -1
                } else if s[3] == 't' {
                    if s.len() == 4 {
                        -1
                    } else if s[4] == 'u' {
                        if s.len() == 5 {
                            -1
                        } else if s[5] == 'r' {
                            if s.len() == 6 {
                                -1
                            } else if s[6] == 'e' {
                                if s.len() == 7 {
                                    -1
                                } else if s[7] == 'S' {
                                    if s.len() == 8 {
                                        -1
                                    } else if s[8] == 'a' {
                                        if s.len() == 9 {
                                            -1
                                        } else if s[9] == 'm' {
                                            if s.len() == 10 {
                                                -1
                                            } else if s[10] == 'p' {
                                                if s.len() == 11 {
                                                    -1
                                                } else if s[11] == 'l' {
                                                    if s.len() == 12 {
                                                        -1
                                                    } else if s[12] == 'e' {
                                                        if s.len() == 13 {
                                                            -1
                                                        } else if s[13] == 'R' {
                                                            if s.len() == 14 {
                                                                123
                                                            } else if s[14] == 'G' {
                                                                if s.len() == 15 {
                                                                    -1
                                                                } else if s[15] == 'B' {
                                                                    if s.len() == 16 {
                                                                        -1
                                                                    } else if s[16] == 'A' {
                                                                        124
                                                                    } else {
                                                                        -1
                                                                    }
                                                                } else {
                                                                    -1
                                                                }
                                                            } else {
                                                                -1
                                                            }
                                                        } else {
                                                            -1
                                                        }
                                                    } else {
                                                        -1
                                                    }
                                                } else {
                                                    -1
                                                }
                                            } else {
                                                -1
                                            }
                                        } else {
                                            -1
                                        }
                                    } else {
                                        -1
                                    }
                                } else {
                                    -1
                                }
                            } else {
                                -1
                            }
                        } else {
                            -1
                        }
                    } else {
                        -1
                    }
                } else {
                    -1
                }
            } else {
                -1
            }
        } else if s[1] == 'r' {
            if s.len() == 2 {
                -1
            } else if s[2] == 'a' {
                if s.len() == 3 {
                    -1
                } else if s[3] == 'n' {
                    if s.len() == 4 {
                        -1
                    } else if s[4] == 's' {
                        if s.len() == 5 {
                            -1
                        } else if s[5] == 'p' {
                            if s.len() == 6 {
                                -1
                            } else if s[6] == 'o' {
                                if s.len() == 7 {
                                    -1
                                } else if s[7] == 's' {
                                    if s.len() == 8 {
                                        -1
                                    } else if s[8] == 'e' {
                                        if s.len() == 9 {
                                            -1
                                        } else if s[9] == 'M' {
                                            if s.len() == 10 {
                                                -1
                                            } else if s[10] == 'a' {
                                                if s.len() == 11 {
                                                    -1
                                                } else if s[11] == 't' {
                                                    if s.len() == 12 {
                                                        -1
                                                    } else if s[12] == '3' {
                                                        115
                                                    } else {
                                                        -1
                                                    }
                                                } else {
                                                    -1
                                                }
                                            } else {
                                                -1
                                            }
                                        } else {
                                            -1
                                        }
                                    } else {
                                        -1
                                    }
                                } else {
                                    -1
                                }
                            } else {
                                -1
                            }
                        } else {
                            -1
                        }
                    } else {
                        -1
                    }
                } else {
                    -1
                }
            } else {
                -1
            }
        } else {
            -1
        }
    } else {
        -1
    }
}

/// Names at positions 0 to 9 lead back to their positions.
proof fn lemma_positions_0(k: int)
    requires
        0 <= k <= 9,
    ensures
        position_of_name(name_at(k)@) == k,
{
    reveal_strlit("Push");
    reveal_strlit("PushInt32");
    reveal_strlit("Dup1");
    reveal_strlit("Dup2");
    reveal_strlit("Dup3");
    reveal_strlit("Dup4");
    reveal_strlit("Dup9");
    reveal_strlit("Drop1");
    reveal_strlit("Drop2");
    reveal_strlit("Drop3");

    if k == 0 {
        assert(position_of_name(name_at(0)@) == 0);
    } else if k == 1 {
        assert(position_of_name(name_at(1)@) == 1);
    } else if k == 2 {
        assert(position_of_name(name_at(2)@) == 2);
    } else if k == 3 {
        assert(position_of_name(name_at(3)@) == 3);
    } else if k == 4 {
        assert(position_of_name(name_at(4)@) == 4);
    } else if k == 5 {
        assert(position_of_name(name_at(5)@) == 5);
    } else if k == 6 {
        assert(position_of_name(name_at(6)@) == 6);
    } else if k == 7 {
        assert(position_of_name(name_at(7)@) == 7);
    } else if k == 8 {
        assert(position_of_name(name_at(8)@) == 8);
    } else if k == 9 {
        assert(position_of_name(name_at(9)@) == 9);
    }
}

/// Names at positions 10 to 19 lead back to their positions.
proof fn lemma_positions_1(k: int)
    requires
        10 <= k <= 19,
    ensures
        position_of_name(name_at(k)@) == k,
{
    reveal_strlit("Drop4");
    reveal_strlit("Drop9");
    reveal_strlit("Swap");
    reveal_strlit("AddDec32");
    reveal_strlit("SubDec32");
    reveal_strlit("MulDec32");
    reveal_strlit("DivDec32");
    reveal_strlit("NegDec32");
    reveal_strlit("AbsDec32");
    reveal_strlit("MinDec32");

    if k == 10 {
        assert(position_of_name(name_at(10)@) == 10);
    } else if k == 11 {
        assert(position_of_name(name_at(11)@) == 11);
    } else if k == 12 {
        assert(position_of_name(name_at(12)@) == 12);
    } else if k == 13 {
        assert(position_of_name(name_at(13)@) == 13);
    } else if k == 14 {
        assert(position_of_name(name_at(14)@) == 14);
    } else if k == 15 {
        assert(position_of_name(name_at(15)@) == 15);
    } else if k == 16 {
        assert(position_of_name(name_at(16)@) == 16);
    } else if k == 17 {
        assert(position_of_name(name_at(17)@) == 17);
    } else if k == 18 {
        assert(position_of_name(name_at(18)@) == 18);
    } else if k == 19 {
        assert(position_of_name(name_at(19)@) == 19);
    }
}

/// Names at positions 20 to 29 lead back to their positions.
proof fn lemma_positions_2(k: int)
    requires
        20 <= k <= 29,
    ensures
        position_of_name(name_at(k)@) == k,
{
    reveal_strlit("MaxDec32");
    reveal_strlit("SinDec32");
    reveal_strlit("CosDec32");
    reveal_strlit("TanDec32");
    reveal_strlit("AtanDec32");
    reveal_strlit("Atan2Dec32");
    reveal_strlit("SqrtDec32");
    reveal_strlit("FloorDec32");
    reveal_strlit("CeilDec32");
    reveal_strlit("FractDec32");

    if k == 20 {
        assert(position_of_name(name_at(20)@) == 20);
    } else if k == 21 {
        assert(position_of_name(name_at(21)@) == 21);
    } else if k == 22 {
        assert(position_of_name(name_at(22)@) == 22);
    } else if k == 23 {
        assert(position_of_name(name_at(23)@) == 23);
    } else if k == 24 {
        assert(position_of_name(name_at(24)@) == 24);
    } else if k == 25 {
        assert(position_of_name(name_at(25)@) == 25);
    } else if k == 26 {
        assert(position_of_name(name_at(26)@) == 26);
    } else if k == 27 {
        assert(position_of_name(name_at(27)@) == 27);
    } else if k == 28 {
        assert(position_of_name(name_at(28)@) == 28);
    } else if k == 29 {
        assert(position_of_name(name_at(29)@) == 29);
    }
}

/// Names at positions 30 to 39 lead back to their positions.
proof fn lemma_positions_3(k: int)
    requires
        30 <= k <= 39,
    ensures
        position_of_name(name_at(k)@) == k,
{
    reveal_strlit("ModDec32");
    reveal_strlit("PowDec32");
    reveal_strlit("SignDec32");
    reveal_strlit("SaturateDec32");
    reveal_strlit("ClampDec32");
    reveal_strlit("StepDec32");
    reveal_strlit("LerpDec32");
    reveal_strlit("SmoothstepDec32");
    reveal_strlit("Perlin3");
    reveal_strlit("GreaterDec32");

    if k == 30 {
        assert(position_of_name(name_at(30)@) == 30);
    } else if k == 31 {
        assert(position_of_name(name_at(31)@) == 31);
    } else if k == 32 {
        assert(position_of_name(name_at(32)@) == 32);
    } else if k == 33 {
        assert(position_of_name(name_at(33)@) == 33);
    } else if k == 34 {
        assert(position_of_name(name_at(34)@) == 34);
    } else if k == 35 {
        assert(position_of_name(name_at(35)@) == 35);
    } else if k == 36 {
        assert(position_of_name(name_at(36)@) == 36);
    } else if k == 37 {
        assert(position_of_name(name_at(37)@) == 37);
    } else if k == 38 {
        assert(position_of_name(name_at(38)@) == 38);
    } else if k == 39 {
        assert(position_of_name(name_at(39)@) == 39);
    }
}

/// Names at positions 40 to 49 lead back to their positions.
proof fn lemma_positions_4(k: int)
    requires
        40 <= k <= 49,
    ensures
        position_of_name(name_at(k)@) == k,
{
    reveal_strlit("LessDec32");
    reveal_strlit("GreaterEqDec32");
    reveal_strlit("LessEqDec32");
    reveal_strlit("EqDec32");
    reveal_strlit("NotEqDec32");
    reveal_strlit("AndDec32");
    reveal_strlit("OrDec32");
    reveal_strlit("NotDec32");
    reveal_strlit("AddInt32");
    reveal_strlit("SubInt32");

    if k == 40 {
        assert(position_of_name(name_at(40)@) == 40);
    } else if k == 41 {
        assert(position_of_name(name_at(41)@) == 41);
    } else if k == 42 {
        assert(position_of_name(name_at(42)@) == 42);
    } else if k == 43 {
        assert(position_of_name(name_at(43)@) == 43);
    } else if k == 44 {
        assert(position_of_name(name_at(44)@) == 44);
    } else if k == 45 {
        assert(position_of_name(name_at(45)@) == 45);
    } else if k == 46 {
        assert(position_of_name(name_at(46)@) == 46);
    } else if k == 47 {
        assert(position_of_name(name_at(47)@) == 47);
    } else if k == 48 {
        assert(position_of_name(name_at(48)@) == 48);
    } else if k == 49 {
        assert(position_of_name(name_at(49)@) == 49);
    }
}

/// Names at positions 50 to 59 lead back to their positions.
proof fn lemma_positions_5(k: int)
    requires
        50 <= k <= 59,
    ensures
        position_of_name(name_at(k)@) == k,
{
    reveal_strlit("MulInt32");
    reveal_strlit("DivInt32");
    reveal_strlit("ModInt32");
    reveal_strlit("NegInt32");
    reveal_strlit("AbsInt32");
    reveal_strlit("MinInt32");
    reveal_strlit("MaxInt32");
    reveal_strlit("GreaterInt32");
    reveal_strlit("LessInt32");
    reveal_strlit("GreaterEqInt32");

    if k == 50 {
        assert(position_of_name(name_at(50)@) == 50);
    } else if k == 51 {
        assert(position_of_name(name_at(51)@) == 51);
    } else if k == 52 {
        assert(position_of_name(name_at(52)@) == 52);
    } else if k == 53 {
        assert(position_of_name(name_at(53)@) == 53);
    } else if k == 54 {
        assert(position_of_name(name_at(54)@) == 54);
    } else if k == 55 {
        assert(position_of_name(name_at(55)@) == 55);
    } else if k == 56 {
        assert(position_of_name(name_at(56)@) == 56);
    } else if k == 57 {
        assert(position_of_name(name_at(57)@) == 57);
    } else if k == 58 {
        assert(position_of_name(name_at(58)@) == 58);
    } else if k == 59 {
        assert(position_of_name(name_at(59)@) == 59);
    }
}

/// Names at positions 60 to 69 lead back to their positions.
proof fn lemma_positions_6(k: int)
    requires
        60 <= k <= 69,
    ensures
        position_of_name(name_at(k)@) == k,
{
    reveal_strlit("LessEqInt32");
    reveal_strlit("EqInt32");
    reveal_strlit("NotEqInt32");
    reveal_strlit("BitwiseAndInt32");
    reveal_strlit("BitwiseOrInt32");
    reveal_strlit("BitwiseXorInt32");
    reveal_strlit("BitwiseNotInt32");
    reveal_strlit("LeftShiftInt32");
    reveal_strlit("RightShiftInt32");
    reveal_strlit("Int32ToDec32");

    if k == 60 {
        assert(position_of_name(name_at(60)@) == 60);
    } else if k == 61 {
        assert(position_of_name(name_at(61)@) == 61);
    } else if k == 62 {
        assert(position_of_name(name_at(62)@) == 62);
    } else if k == 63 {
        assert(position_of_name(name_at(63)@) == 63);
    } else if k == 64 {
        assert(position_of_name(name_at(64)@) == 64);
    } else if k == 65 {
        assert(position_of_name(name_at(65)@) == 65);
    } else if k == 66 {
        assert(position_of_name(name_at(66)@) == 66);
    } else if k == 67 {
        assert(position_of_name(name_at(67)@) == 67);
    } else if k == 68 {
        assert(position_of_name(name_at(68)@) == 68);
    } else if k == 69 {
        assert(position_of_name(name_at(69)@) == 69);
    }
}

/// Names at positions 70 to 79 lead back to their positions.
proof fn lemma_positions_7(k: int)
    requires
        70 <= k <= 79,
    ensures
        position_of_name(name_at(k)@) == k,
{
    reveal_strlit("FixedToInt32");
    reveal_strlit("AddVec2");
    reveal_strlit("SubVec2");
    reveal_strlit("NegVec2");
    reveal_strlit("MulVec2");
    reveal_strlit("DivVec2");
    reveal_strlit("ModVec2");
    reveal_strlit("MulVec2Scalar");
    reveal_strlit("DivVec2Scalar");
    reveal_strlit("Dot2");

    if k == 70 {
        assert(position_of_name(name_at(70)@) == 70);
    } else if k == 71 {
        assert(position_of_name(name_at(71)@) == 71);
    } else if k == 72 {
        assert(position_of_name(name_at(72)@) == 72);
    } else if k == 73 {
        assert(position_of_name(name_at(73)@) == 73);
    } else if k == 74 {
        assert(position_of_name(name_at(74)@) == 74);
    } else if k == 75 {
        assert(position_of_name(name_at(75)@) == 75);
    } else if k == 76 {
        assert(position_of_name(name_at(76)@) == 76);
    } else if k == 77 {
        assert(position_of_name(name_at(77)@) == 77);
    } else if k == 78 {
        assert(position_of_name(name_at(78)@) == 78);
    } else if k == 79 {
        assert(position_of_name(name_at(79)@) == 79);
    }
}

/// Names at positions 80 to 89 lead back to their positions.
proof fn lemma_positions_8(k: int)
    requires
        80 <= k <= 89,
    ensures
        position_of_name(name_at(k)@) == k,
{
    reveal_strlit("Length2");
    reveal_strlit("Normalize2");
    reveal_strlit("Distance2");
    reveal_strlit("AddVec3");
    reveal_strlit("SubVec3");
    reveal_strlit("NegVec3");
    reveal_strlit("MulVec3");
    reveal_strlit("DivVec3");
    reveal_strlit("ModVec3");
    reveal_strlit("MulVec3Scalar");

    if k == 80 {
        assert(position_of_name(name_at(80)@) == 80);
    } else if k == 81 {
        assert(position_of_name(name_at(81)@) == 81);
    } else if k == 82 {
        assert(position_of_name(name_at(82)@) == 82);
    } else if k == 83 {
        assert(position_of_name(name_at(83)@) == 83);
    } else if k == 84 {
        assert(position_of_name(name_at(84)@) == 84);
    } else if k == 85 {
        assert(position_of_name(name_at(85)@) == 85);
    } else if k == 86 {
        assert(position_of_name(name_at(86)@) == 86);
    } else if k == 87 {
        assert(position_of_name(name_at(87)@) == 87);
    } else if k == 88 {
        assert(position_of_name(name_at(88)@) == 88);
    } else if k == 89 {
        assert(position_of_name(name_at(89)@) == 89);
    }
}

/// Names at positions 90 to 99 lead back to their positions.
proof fn lemma_positions_9(k: int)
    requires
        90 <= k <= 99,
    ensures
        position_of_name(name_at(k)@) == k,
{
    reveal_strlit("DivVec3Scalar");
    reveal_strlit("Dot3");
    reveal_strlit("Cross3");
    reveal_strlit("Length3");
    reveal_strlit("Normalize3");
    reveal_strlit("Distance3");
    reveal_strlit("AddVec4");
    reveal_strlit("SubVec4");
    reveal_strlit("NegVec4");
    reveal_strlit("MulVec4");

    if k == 90 {
        assert(position_of_name(name_at(90)@) == 90);
    } else if k == 91 {
        assert(position_of_name(name_at(91)@) == 91);
    } else if k == 92 {
        assert(position_of_name(name_at(92)@) == 92);
    } else if k == 93 {
        assert(position_of_name(name_at(93)@) == 93);
    } else if k == 94 {
        assert(position_of_name(name_at(94)@) == 94);
    } else if k == 95 {
        assert(position_of_name(name_at(95)@) == 95);
    } else if k == 96 {
        assert(position_of_name(name_at(96)@) == 96);
    } else if k == 97 {
        assert(position_of_name(name_at(97)@) == 97);
    } else if k == 98 {
        assert(position_of_name(name_at(98)@) == 98);
    } else if k == 99 {
        assert(position_of_name(name_at(99)@) == 99);
    }
}

/// Names at positions 100 to 109 lead back to their positions.
proof fn lemma_positions_10(k: int)
    requires
        100 <= k <= 109,
    ensures
        position_of_name(name_at(k)@) == k,
{
    reveal_strlit("DivVec4");
    reveal_strlit("ModVec4");
    reveal_strlit("MulVec4Scalar");
    reveal_strlit("DivVec4Scalar");
    reveal_strlit("Dot4");
    reveal_strlit("Length4");
    reveal_strlit("Normalize4");
    reveal_strlit("Distance4");
    reveal_strlit("AddMat3");
    reveal_strlit("SubMat3");

    if k == 100 {
        assert(position_of_name(name_at(100)@) == 100);
    } else if k == 101 {
        assert(position_of_name(name_at(101)@) == 101);
    } else if k == 102 {
        assert(position_of_name(name_at(102)@) == 102);
    } else if k == 103 {
        assert(position_of_name(name_at(103)@) == 103);
    } else if k == 104 {
        assert(position_of_name(name_at(104)@) == 104);
    } else if k == 105 {
        assert(position_of_name(name_at(105)@) == 105);
    } else if k == 106 {
        assert(position_of_name(name_at(106)@) == 106);
    } else if k == 107 {
        assert(position_of_name(name_at(107)@) == 107);
    } else if k == 108 {
        assert(position_of_name(name_at(108)@) == 108);
    } else if k == 109 {
        assert(position_of_name(name_at(109)@) == 109);
    }
}

/// Names at positions 110 to 119 lead back to their positions.
proof fn lemma_positions_11(k: int)
    requires
        110 <= k <= 119,
    ensures
        position_of_name(name_at(k)@) == k,
{
    reveal_strlit("NegMat3");
    reveal_strlit("MulMat3");
    reveal_strlit("MulMat3Scalar");
    reveal_strlit("DivMat3Scalar");
    reveal_strlit("MulMat3Vec3");
    reveal_strlit("TransposeMat3");
    reveal_strlit("DeterminantMat3");
    reveal_strlit("InverseMat3");
    reveal_strlit("Swizzle3to2");
    reveal_strlit("Swizzle3to3");

    if k == 110 {
        assert(position_of_name(name_at(110)@) == 110);
    } else if k == 111 {
        assert(position_of_name(name_at(111)@) == 111);
    } else if k == 112 {
        assert(position_of_name(name_at(112)@) == 112);
    } else if k == 113 {
        assert(position_of_name(name_at(113)@) == 113);
    } else if k == 114 {
        assert(position_of_name(name_at(114)@) == 114);
    } else if k == 115 {
        assert(position_of_name(name_at(115)@) == 115);
    } else if k == 116 {
        assert(position_of_name(name_at(116)@) == 116);
    } else if k == 117 {
        assert(position_of_name(name_at(117)@) == 117);
    } else if k == 118 {
        assert(position_of_name(name_at(118)@) == 118);
    } else if k == 119 {
        assert(position_of_name(name_at(119)@) == 119);
    }
}

/// Names at positions 120 to 129 lead back to their positions.
proof fn lemma_positions_12(k: int)
    requires
        120 <= k <= 129,
    ensures
        position_of_name(name_at(k)@) == k,
{
    reveal_strlit("Swizzle4to2");
    reveal_strlit("Swizzle4to3");
    reveal_strlit("Swizzle4to4");
    reveal_strlit("TextureSampleR");
    reveal_strlit("TextureSampleRGBA");
    reveal_strlit("LoadLocalDec32");
    reveal_strlit("StoreLocalDec32");
    reveal_strlit("LoadLocalInt32");
    reveal_strlit("StoreLocalInt32");
    reveal_strlit("LoadLocalVec2");

    if k == 120 {
        assert(position_of_name(name_at(120)@) == 120);
    } else if k == 121 {
        assert(position_of_name(name_at(121)@) == 121);
    } else if k == 122 {
        assert(position_of_name(name_at(122)@) == 122);
    } else if k == 123 {
        assert(position_of_name(name_at(123)@) == 123);
    } else if k == 124 {
        assert(position_of_name(name_at(124)@) == 124);
    } else if k == 125 {
        assert(position_of_name(name_at(125)@) == 125);
    } else if k == 126 {
        assert(position_of_name(name_at(126)@) == 126);
    } else if k == 127 {
        assert(position_of_name(name_at(127)@) == 127);
    } else if k == 128 {
        assert(position_of_name(name_at(128)@) == 128);
    } else if k == 129 {
        assert(position_of_name(name_at(129)@) == 129);
    }
}

/// Names at positions 130 to 139 lead back to their positions.
proof fn lemma_positions_13(k: int)
    requires
        130 <= k <= 139,
    ensures
        position_of_name(name_at(k)@) == k,
{
    reveal_strlit("StoreLocalVec2");
    reveal_strlit("LoadLocalVec3");
    reveal_strlit("StoreLocalVec3");
    reveal_strlit("LoadLocalVec4");
    reveal_strlit("StoreLocalVec4");
    reveal_strlit("LoadLocalMat3");
    reveal_strlit("StoreLocalMat3");
    reveal_strlit("GetElemInt32ArrayDec32");
    reveal_strlit("GetElemInt32ArrayU8");
    reveal_strlit("Jump");

    if k == 130 {
        assert(position_of_name(name_at(130)@) == 130);
    } else if k == 131 {
        assert(position_of_name(name_at(131)@) == 131);
    } else if k == 132 {
        assert(position_of_name(name_at(132)@) == 132);
    } else if k == 133 {
        assert(position_of_name(name_at(133)@) == 133);
    } else if k == 134 {
        assert(position_of_name(name_at(134)@) == 134);
    } else if k == 135 {
        assert(position_of_name(name_at(135)@) == 135);
    } else if k == 136 {
        assert(position_of_name(name_at(136)@) == 136);
    } else if k == 137 {
        assert(position_of_name(name_at(137)@) == 137);
    } else if k == 138 {
        assert(position_of_name(name_at(138)@) == 138);
    } else if k == 139 {
        assert(position_of_name(name_at(139)@) == 139);
    }
}

/// Names at positions 140 to 145 lead back to their positions.
proof fn lemma_positions_14(k: int)
    requires
        140 <= k <= 145,
    ensures
        position_of_name(name_at(k)@) == k,
{
    reveal_strlit("JumpIfZero");
    reveal_strlit("JumpIfNonZero");
    reveal_strlit("Select");
    reveal_strlit("Call");
    reveal_strlit("Return");
    reveal_strlit("Load");

    if k == 140 {
        assert(position_of_name(name_at(140)@) == 140);
    } else if k == 141 {
        assert(position_of_name(name_at(141)@) == 141);
    } else if k == 142 {
        assert(position_of_name(name_at(142)@) == 142);
    } else if k == 143 {
        assert(position_of_name(name_at(143)@) == 143);
    } else if k == 144 {
        assert(position_of_name(name_at(144)@) == 144);
    } else if k == 145 {
        assert(position_of_name(name_at(145)@) == 145);
    }
}

/// The name at each position leads back to that position.
proof fn lemma_position_of_name(k: int)
    requires
        0 <= k < 146,
    ensures
        position_of_name(name_at(k)@) == k,
{
    if k <= 9 {
        lemma_positions_0(k);
    } else if k <= 19 {
        lemma_positions_1(k);
    } else if k <= 29 {
        lemma_positions_2(k);
    } else if k <= 39 {
        lemma_positions_3(k);
    } else if k <= 49 {
        lemma_positions_4(k);
    } else if k <= 59 {
        lemma_positions_5(k);
    } else if k <= 69 {
        lemma_positions_6(k);
    } else if k <= 79 {
        lemma_positions_7(k);
    } else if k <= 89 {
        lemma_positions_8(k);
    } else if k <= 99 {
        lemma_positions_9(k);
    } else if k <= 109 {
        lemma_positions_10(k);
    } else if k <= 119 {
        lemma_positions_11(k);
    } else if k <= 129 {
        lemma_positions_12(k);
    } else if k <= 139 {
        lemma_positions_13(k);
    } else if k <= 145 {
        lemma_positions_14(k);
    }
}

/// An opcode's name is the name at its variant's position.
proof fn lemma_name_at_index(op: LpsOpCode)
    ensures
        0 <= opcode_index(op) < 146,
        opcode_name(op) == name_at(opcode_index(op)),
{
}

/// Two opcodes have the same name exactly when they are the same variant (whatever
/// their payloads).
pub proof fn lemma_name_identifies_variant(a: LpsOpCode, b: LpsOpCode)
    ensures
        (opcode_name(a)@ == opcode_name(b)@) <==> (opcode_index(a) == opcode_index(b)),
{
    lemma_name_at_index(a);
    lemma_name_at_index(b);
    lemma_position_of_name(opcode_index(a));
    lemma_position_of_name(opcode_index(b));
}

} // verus!
