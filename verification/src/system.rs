//! The fixed body table and the hierarchy builder.
//!
//! The fixture is a star, planets and moons, held as a data table of element
//! rows that the builder consumes once. Bodies are constructed in strict
//! dependency order: a parent stands earlier in the table than every body
//! orbiting it, so the child's gravitational parameter and absolute state can
//! be derived from the already-built parent. The builder's result is pinned,
//! body by body, to a specification function of the table alone, so two
//! builds can never disagree.

use vstd::prelude::*;
use crate::fixed::Fx;
use crate::fixed::cl;
use crate::fixed::mag;
use crate::fixed::SCALE;
use crate::fixed::CAP_U;
use crate::vec3::V3;
use crate::vec3::v3_zero;
use crate::kepler::StateVectors;
use crate::kepler::KeplerError;
use crate::kepler::from_keplerian_v;
use crate::kepler::relative_to_v;

verus! {

/// The six classical orbital elements of one body.
#[derive(Clone, Copy, PartialEq, Eq, Structural, Debug)]
pub struct Elements {
    pub sma: Fx,
    pub ecc: Fx,
    pub inc: Fx,
    pub aop: Fx,
    pub lan: Fx,
    pub ma: Fx,
}

/// Where a body's initial state comes from: the root has the fixed zero
/// state; every other body orbits an earlier body of the table.
#[derive(Clone, Copy, PartialEq, Eq, Structural, Debug)]
pub enum Origin {
    Root,
    Orbits { parent: usize, elements: Elements },
}

/// One row of the body table: everything but the display name.
#[derive(Clone, Copy, PartialEq, Eq, Structural, Debug)]
pub struct Row {
    pub colour: V3<Fx>,
    pub mass: Fx,
    pub radius: Fx,
    pub origin: Origin,
}

/// A massive body: name, display colour, mass, radius, and its dynamical
/// state. Only `orbit` is ever mutated after construction, by the integrator.
pub struct Celestial {
    pub name: String,
    pub colour: V3<Fx>,
    pub mass: Fx,
    pub radius: Fx,
    pub orbit: StateVectors,
}

/// An integer constant at scale.
pub open spec fn fxi(i: int) -> Fx {
    Fx::from_int_v(i)
}

/// A thousandths constant at scale.
pub open spec fn fxr(n: int) -> Fx {
    Fx::from_ratio_v(n, 1000)
}

/// An integer table constant.
fn efxi(i: i128) -> (r: Fx)
    ensures
        r == fxi(i as int),
{
    Fx::from_int(i)
}

/// A thousandths table constant.
fn efxr(n: i128) -> (r: Fx)
    ensures
        r == fxr(n as int),
{
    Fx::from_ratio(n, 1000)
}

/// The initial orbits that the table rows describe, built front to back:
/// the root gets the zero state; an orbiting body gets its Keplerian
/// conversion composed with its parent's already-absolute state. Any failure
/// is the overall result; an out-of-range parent or element set counts as a
/// degenerate row.
pub open spec fn orbits_rec(rows: Seq<Row>, i: int, acc: Seq<StateVectors>) -> Result<
    Seq<StateVectors>,
    KeplerError,
>
    decreases rows.len() - i,
{
    if i < 0 || i >= rows.len() {
        Ok(acc)
    } else {
        match rows[i].origin {
            Origin::Root => orbits_rec(
                rows,
                i + 1,
                acc.push(StateVectors { position: v3_zero(), velocity: v3_zero() }),
            ),
            Origin::Orbits { parent, elements: e } => {
                if parent as int >= acc.len() {
                    Err(KeplerError::DegenerateVector)
                } else {
                    let gm = grav_param_v(rows[parent as int].mass);
                    if e.ecc.m < 0 || e.ecc.m >= SCALE || gm.m < 0 {
                        Err(KeplerError::DegenerateVector)
                    } else {
                        match from_keplerian_v(gm, e.sma, e.ecc, e.inc, e.aop, e.lan, e.ma) {
                            Err(er) => Err(er),
                            Ok(sv) => orbits_rec(
                                rows,
                                i + 1,
                                acc.push(relative_to_v(sv, acc[parent as int])),
                            ),
                        }
                    }
                }
            },
        }
    }
}

/// The initial orbits of a whole table.
pub open spec fn orbits_v(rows: Seq<Row>) -> Result<Seq<StateVectors>, KeplerError> {
    orbits_rec(rows, 0, Seq::empty())
}

/// The orbit sequence of a successful build (empty on failure).
pub open spec fn ok_orbits(r: Result<Seq<StateVectors>, KeplerError>) -> Seq<StateVectors> {
    match r {
        Ok(s) => s,
        Err(_) => Seq::empty(),
    }
}

/// Table row of Kerbol.
pub open spec fn row0_v() -> Row {
    Row {
        colour: V3 { x: fxr(1000), y: fxr(900), z: fxr(500) },
        mass: fxi(17565459000000000000000000000),
        radius: fxi(261600000),
        origin: Origin::Root,
    }
}

/// Table row of Moho.
pub open spec fn row1_v() -> Row {
    Row {
        colour: V3 { x: fxr(800), y: fxr(400), z: fxr(0) },
        mass: fxi(2526331400000000000000),
        radius: fxi(250000),
        origin: Origin::Orbits {
        parent: 0,
        elements: Elements {
            sma: fxi(5263138304),
            ecc: fxr(200),
            inc: fxr(7000),
            aop: fxr(15000),
            lan: fxr(70000),
            ma: fxr(3140),
        },
    },
    }
}

/// Table row of Eve.
pub open spec fn row2_v() -> Row {
    Row {
        colour: V3 { x: fxr(400), y: fxr(300), z: fxr(400) },
        mass: fxi(122439800000000000000000),
        radius: fxi(700000),
        origin: Origin::Orbits {
        parent: 0,
        elements: Elements {
            sma: fxi(9832684544),
            ecc: fxr(10),
            inc: fxr(2100),
            aop: fxr(0),
            lan: fxr(15000),
            ma: fxr(3140),
        },
    },
    }
}

/// Table row of Gilly.
pub open spec fn row3_v() -> Row {
    Row {
        colour: V3 { x: fxr(800), y: fxr(400), z: fxr(0) },
        mass: fxi(124203630000000000),
        radius: fxi(13000),
        origin: Origin::Orbits {
        parent: 2,
        elements: Elements {
            sma: fxi(31500000),
            ecc: fxr(550),
            inc: fxr(12000),
            aop: fxr(10000),
            lan: fxr(80000),
            ma: fxr(900),
        },
    },
    }
}

/// Table row of Kerbin.
pub open spec fn row4_v() -> Row {
    Row {
        colour: V3 { x: fxr(0), y: fxr(500), z: fxr(0) },
        mass: fxi(52915158000000000000000),
        radius: fxi(600000),
        origin: Origin::Orbits {
        parent: 0,
        elements: Elements {
            sma: fxi(13599840256),
            ecc: fxr(0),
            inc: fxr(0),
            aop: fxr(0),
            lan: fxr(0),
            ma: fxr(3140),
        },
    },
    }
}

/// Table row of Mun.
pub open spec fn row5_v() -> Row {
    Row {
        colour: V3 { x: fxr(400), y: fxr(400), z: fxr(400) },
        mass: fxi(975990660000000000000),
        radius: fxi(200000),
        origin: Origin::Orbits {
        parent: 4,
        elements: Elements {
            sma: fxi(12000000),
            ecc: fxr(0),
            inc: fxr(0),
            aop: fxr(0),
            lan: fxr(0),
            ma: fxr(1700),
        },
    },
    }
}

/// Table row of Minmus.
pub open spec fn row6_v() -> Row {
    Row {
        colour: V3 { x: fxr(690), y: fxr(882), z: fxr(808) },
        mass: fxi(26457580000000000000),
        radius: fxi(60000),
        origin: Origin::Orbits {
        parent: 4,
        elements: Elements {
            sma: fxi(47000000),
            ecc: fxr(0),
            inc: fxr(6000),
            aop: fxr(38000),
            lan: fxr(78000),
            ma: fxr(900),
        },
    },
    }
}

/// Table row of Duna.
pub open spec fn row7_v() -> Row {
    Row {
        colour: V3 { x: fxr(1000), y: fxr(500), z: fxr(0) },
        mass: fxi(4515427000000000000000),
        radius: fxi(320000),
        origin: Origin::Orbits {
        parent: 0,
        elements: Elements {
            sma: fxi(20726155264),
            ecc: fxr(51),
            inc: fxr(60),
            aop: fxr(0),
            lan: fxr(135500),
            ma: fxr(3140),
        },
    },
    }
}

/// Table row of Ike.
pub open spec fn row8_v() -> Row {
    Row {
        colour: V3 { x: fxr(300), y: fxr(300), z: fxr(300) },
        mass: fxi(278216150000000000000),
        radius: fxi(130000),
        origin: Origin::Orbits {
        parent: 7,
        elements: Elements {
            sma: fxi(3200000),
            ecc: fxr(30),
            inc: fxr(200),
            aop: fxr(0),
            lan: fxr(0),
            ma: fxr(1700),
        },
    },
    }
}

/// Table row of Dres.
pub open spec fn row9_v() -> Row {
    Row {
        colour: V3 { x: fxr(600), y: fxr(600), z: fxr(600) },
        mass: fxi(321909370000000000000),
        radius: fxi(136000),
        origin: Origin::Orbits {
        parent: 0,
        elements: Elements {
            sma: fxi(40839348203),
            ecc: fxr(145),
            inc: fxr(5000),
            aop: fxr(90000),
            lan: fxr(280000),
            ma: fxr(3140),
        },
    },
    }
}

/// Table row of Jool.
pub open spec fn row10_v() -> Row {
    Row {
        colour: V3 { x: fxr(0), y: fxr(900), z: fxr(0) },
        mass: fxi(4233212700000000000000000),
        radius: fxi(6000000),
        origin: Origin::Orbits {
        parent: 0,
        elements: Elements {
            sma: fxi(68773560320),
            ecc: fxr(50),
            inc: fxr(1304),
            aop: fxr(0),
            lan: fxr(52000),
            ma: fxr(100),
        },
    },
    }
}

/// Table row of Laythe.
pub open spec fn row11_v() -> Row {
    Row {
        colour: V3 { x: fxr(0), y: fxr(200), z: fxr(800) },
        mass: fxi(29397311000000000000000),
        radius: fxi(500000),
        origin: Origin::Orbits {
        parent: 10,
        elements: Elements {
            sma: fxi(27184000),
            ecc: fxr(0),
            inc: fxr(0),
            aop: fxr(0),
            lan: fxr(0),
            ma: fxr(3140),
        },
    },
    }
}

/// Table row of Vall.
pub open spec fn row12_v() -> Row {
    Row {
        colour: V3 { x: fxr(330), y: fxr(412), z: fxr(431) },
        mass: fxi(3108765500000000000000),
        radius: fxi(300000),
        origin: Origin::Orbits {
        parent: 10,
        elements: Elements {
            sma: fxi(43152000),
            ecc: fxr(0),
            inc: fxr(0),
            aop: fxr(0),
            lan: fxr(0),
            ma: fxr(900),
        },
    },
    }
}

/// Table row of Tylo.
pub open spec fn row13_v() -> Row {
    Row {
        colour: V3 { x: fxr(600), y: fxr(600), z: fxr(600) },
        mass: fxi(42332127000000000000000),
        radius: fxi(600000),
        origin: Origin::Orbits {
        parent: 10,
        elements: Elements {
            sma: fxi(68500000),
            ecc: fxr(0),
            inc: fxr(25),
            aop: fxr(0),
            lan: fxr(0),
            ma: fxr(3140),
        },
    },
    }
}

/// Table row of Bop.
pub open spec fn row14_v() -> Row {
    Row {
        colour: V3 { x: fxr(400), y: fxr(333), z: fxr(298) },
        mass: fxi(37261090000000000000),
        radius: fxi(65000),
        origin: Origin::Orbits {
        parent: 10,
        elements: Elements {
            sma: fxi(128500000),
            ecc: fxr(235),
            inc: fxr(15000),
            aop: fxr(25000),
            lan: fxr(10000),
            ma: fxr(900),
        },
    },
    }
}

/// Table row of Pol.
pub open spec fn row15_v() -> Row {
    Row {
        colour: V3 { x: fxr(750), y: fxr(635), z: fxr(463) },
        mass: fxi(10813507000000000000),
        radius: fxi(44000),
        origin: Origin::Orbits {
        parent: 10,
        elements: Elements {
            sma: fxi(179890000),
            ecc: fxr(171),
            inc: fxr(4250),
            aop: fxr(15000),
            lan: fxr(2000),
            ma: fxr(900),
        },
    },
    }
}

/// Table row of Eeloo.
pub open spec fn row16_v() -> Row {
    Row {
        colour: V3 { x: fxr(741), y: fxr(776), z: fxr(769) },
        mass: fxi(1114922400000000000000),
        radius: fxi(210000),
        origin: Origin::Orbits {
        parent: 0,
        elements: Elements {
            sma: fxi(90118820000),
            ecc: fxr(260),
            inc: fxr(6150),
            aop: fxr(260000),
            lan: fxr(50000),
            ma: fxr(3140),
        },
    },
    }
}

/// The whole body table, root first, every parent before its children.
#[verifier::opaque]
pub open spec fn table_v() -> Seq<Row> {
    seq![
        row0_v(),
        row1_v(),
        row2_v(),
        row3_v(),
        row4_v(),
        row5_v(),
        row6_v(),
        row7_v(),
        row8_v(),
        row9_v(),
        row10_v(),
        row11_v(),
        row12_v(),
        row13_v(),
        row14_v(),
        row15_v(),
        row16_v(),
    ]
}

/// Build the body table.
pub fn kerbolar_table() -> (r: Vec<Row>)
    ensures
        r@ == table_v(),
{
    proof {
        reveal(table_v);
    }
    let mut t: Vec<Row> = Vec::new();
    t.push(Row {
        colour: V3 { x: efxr(1000), y: efxr(900), z: efxr(500) },
        mass: efxi(17565459000000000000000000000),
        radius: efxi(261600000),
        origin: Origin::Root,
    });
    proof {
        assert(t@[0] == row0_v());
    }
    t.push(Row {
        colour: V3 { x: efxr(800), y: efxr(400), z: efxr(0) },
        mass: efxi(2526331400000000000000),
        radius: efxi(250000),
        origin: Origin::Orbits {
        parent: 0,
        elements: Elements {
            sma: efxi(5263138304),
            ecc: efxr(200),
            inc: efxr(7000),
            aop: efxr(15000),
            lan: efxr(70000),
            ma: efxr(3140),
        },
    },
    });
    proof {
        assert(t@[1] == row1_v());
    }
    t.push(Row {
        colour: V3 { x: efxr(400), y: efxr(300), z: efxr(400) },
        mass: efxi(122439800000000000000000),
        radius: efxi(700000),
        origin: Origin::Orbits {
        parent: 0,
        elements: Elements {
            sma: efxi(9832684544),
            ecc: efxr(10),
            inc: efxr(2100),
            aop: efxr(0),
            lan: efxr(15000),
            ma: efxr(3140),
        },
    },
    });
    proof {
        assert(t@[2] == row2_v());
    }
    t.push(Row {
        colour: V3 { x: efxr(800), y: efxr(400), z: efxr(0) },
        mass: efxi(124203630000000000),
        radius: efxi(13000),
        origin: Origin::Orbits {
        parent: 2,
        elements: Elements {
            sma: efxi(31500000),
            ecc: efxr(550),
            inc: efxr(12000),
            aop: efxr(10000),
            lan: efxr(80000),
            ma: efxr(900),
        },
    },
    });
    proof {
        assert(t@[3] == row3_v());
    }
    t.push(Row {
        colour: V3 { x: efxr(0), y: efxr(500), z: efxr(0) },
        mass: efxi(52915158000000000000000),
        radius: efxi(600000),
        origin: Origin::Orbits {
        parent: 0,
        elements: Elements {
            sma: efxi(13599840256),
            ecc: efxr(0),
            inc: efxr(0),
            aop: efxr(0),
            lan: efxr(0),
            ma: efxr(3140),
        },
    },
    });
    proof {
        assert(t@[4] == row4_v());
    }
    t.push(Row {
        colour: V3 { x: efxr(400), y: efxr(400), z: efxr(400) },
        mass: efxi(975990660000000000000),
        radius: efxi(200000),
        origin: Origin::Orbits {
        parent: 4,
        elements: Elements {
            sma: efxi(12000000),
            ecc: efxr(0),
            inc: efxr(0),
            aop: efxr(0),
            lan: efxr(0),
            ma: efxr(1700),
        },
    },
    });
    proof {
        assert(t@[5] == row5_v());
    }
    t.push(Row {
        colour: V3 { x: efxr(690), y: efxr(882), z: efxr(808) },
        mass: efxi(26457580000000000000),
        radius: efxi(60000),
        origin: Origin::Orbits {
        parent: 4,
        elements: Elements {
            sma: efxi(47000000),
            ecc: efxr(0),
            inc: efxr(6000),
            aop: efxr(38000),
            lan: efxr(78000),
            ma: efxr(900),
        },
    },
    });
    proof {
        assert(t@[6] == row6_v());
    }
    t.push(Row {
        colour: V3 { x: efxr(1000), y: efxr(500), z: efxr(0) },
        mass: efxi(4515427000000000000000),
        radius: efxi(320000),
        origin: Origin::Orbits {
        parent: 0,
        elements: Elements {
            sma: efxi(20726155264),
            ecc: efxr(51),
            inc: efxr(60),
            aop: efxr(0),
            lan: efxr(135500),
            ma: efxr(3140),
        },
    },
    });
    proof {
        assert(t@[7] == row7_v());
    }
    t.push(Row {
        colour: V3 { x: efxr(300), y: efxr(300), z: efxr(300) },
        mass: efxi(278216150000000000000),
        radius: efxi(130000),
        origin: Origin::Orbits {
        parent: 7,
        elements: Elements {
            sma: efxi(3200000),
            ecc: efxr(30),
            inc: efxr(200),
            aop: efxr(0),
            lan: efxr(0),
            ma: efxr(1700),
        },
    },
    });
    proof {
        assert(t@[8] == row8_v());
    }
    t.push(Row {
        colour: V3 { x: efxr(600), y: efxr(600), z: efxr(600) },
        mass: efxi(321909370000000000000),
        radius: efxi(136000),
        origin: Origin::Orbits {
        parent: 0,
        elements: Elements {
            sma: efxi(40839348203),
            ecc: efxr(145),
            inc: efxr(5000),
            aop: efxr(90000),
            lan: efxr(280000),
            ma: efxr(3140),
        },
    },
    });
    proof {
        assert(t@[9] == row9_v());
    }
    t.push(Row {
        colour: V3 { x: efxr(0), y: efxr(900), z: efxr(0) },
        mass: efxi(4233212700000000000000000),
        radius: efxi(6000000),
        origin: Origin::Orbits {
        parent: 0,
        elements: Elements {
            sma: efxi(68773560320),
            ecc: efxr(50),
            inc: efxr(1304),
            aop: efxr(0),
            lan: efxr(52000),
            ma: efxr(100),
        },
    },
    });
    proof {
        assert(t@[10] == row10_v());
    }
    t.push(Row {
        colour: V3 { x: efxr(0), y: efxr(200), z: efxr(800) },
        mass: efxi(29397311000000000000000),
        radius: efxi(500000),
        origin: Origin::Orbits {
        parent: 10,
        elements: Elements {
            sma: efxi(27184000),
            ecc: efxr(0),
            inc: efxr(0),
            aop: efxr(0),
            lan: efxr(0),
            ma: efxr(3140),
        },
    },
    });
    proof {
        assert(t@[11] == row11_v());
    }
    t.push(Row {
        colour: V3 { x: efxr(330), y: efxr(412), z: efxr(431) },
        mass: efxi(3108765500000000000000),
        radius: efxi(300000),
        origin: Origin::Orbits {
        parent: 10,
        elements: Elements {
            sma: efxi(43152000),
            ecc: efxr(0),
            inc: efxr(0),
            aop: efxr(0),
            lan: efxr(0),
            ma: efxr(900),
        },
    },
    });
    proof {
        assert(t@[12] == row12_v());
    }
    t.push(Row {
        colour: V3 { x: efxr(600), y: efxr(600), z: efxr(600) },
        mass: efxi(42332127000000000000000),
        radius: efxi(600000),
        origin: Origin::Orbits {
        parent: 10,
        elements: Elements {
            sma: efxi(68500000),
            ecc: efxr(0),
            inc: efxr(25),
            aop: efxr(0),
            lan: efxr(0),
            ma: efxr(3140),
        },
    },
    });
    proof {
        assert(t@[13] == row13_v());
    }
    t.push(Row {
        colour: V3 { x: efxr(400), y: efxr(333), z: efxr(298) },
        mass: efxi(37261090000000000000),
        radius: efxi(65000),
        origin: Origin::Orbits {
        parent: 10,
        elements: Elements {
            sma: efxi(128500000),
            ecc: efxr(235),
            inc: efxr(15000),
            aop: efxr(25000),
            lan: efxr(10000),
            ma: efxr(900),
        },
    },
    });
    proof {
        assert(t@[14] == row14_v());
    }
    t.push(Row {
        colour: V3 { x: efxr(750), y: efxr(635), z: efxr(463) },
        mass: efxi(10813507000000000000),
        radius: efxi(44000),
        origin: Origin::Orbits {
        parent: 10,
        elements: Elements {
            sma: efxi(179890000),
            ecc: efxr(171),
            inc: efxr(4250),
            aop: efxr(15000),
            lan: efxr(2000),
            ma: efxr(900),
        },
    },
    });
    proof {
        assert(t@[15] == row15_v());
    }
    t.push(Row {
        colour: V3 { x: efxr(741), y: efxr(776), z: efxr(769) },
        mass: efxi(1114922400000000000000),
        radius: efxi(210000),
        origin: Origin::Orbits {
        parent: 0,
        elements: Elements {
            sma: efxi(90118820000),
            ecc: efxr(260),
            inc: efxr(6150),
            aop: efxr(260000),
            lan: efxr(50000),
            ma: efxr(3140),
        },
    },
    });
    proof {
        assert(t@[16] == row16_v());
    }
    proof {
        assert(t@ =~= table_v());
    }
    t
}

/// The display name of table position `j`.
pub open spec fn name_v(j: int) -> Seq<char> {
    if j == 0 {
        "Kerbol"@
    } else if j == 1 {
        "Moho"@
    } else if j == 2 {
        "Eve"@
    } else if j == 3 {
        "Gilly"@
    } else if j == 4 {
        "Kerbin"@
    } else if j == 5 {
        "Mun"@
    } else if j == 6 {
        "Minmus"@
    } else if j == 7 {
        "Duna"@
    } else if j == 8 {
        "Ike"@
    } else if j == 9 {
        "Dres"@
    } else if j == 10 {
        "Jool"@
    } else if j == 11 {
        "Laythe"@
    } else if j == 12 {
        "Vall"@
    } else if j == 13 {
        "Tylo"@
    } else if j == 14 {
        "Bop"@
    } else if j == 15 {
        "Pol"@
    } else {
        "Eeloo"@
    }
}

/// Build the name column of the table, in table order.
pub fn kerbolar_names() -> (r: Vec<String>)
    ensures
        r@.len() == 17,
        forall|j: int| 0 <= j < 17 ==> (#[trigger] r@[j])@ == name_v(j),
{
    let mut t: Vec<String> = Vec::new();
    t.push("Kerbol".to_owned());
    t.push("Moho".to_owned());
    t.push("Eve".to_owned());
    t.push("Gilly".to_owned());
    t.push("Kerbin".to_owned());
    t.push("Mun".to_owned());
    t.push("Minmus".to_owned());
    t.push("Duna".to_owned());
    t.push("Ike".to_owned());
    t.push("Dres".to_owned());
    t.push("Jool".to_owned());
    t.push("Laythe".to_owned());
    t.push("Vall".to_owned());
    t.push("Tylo".to_owned());
    t.push("Bop".to_owned());
    t.push("Pol".to_owned());
    t.push("Eeloo".to_owned());
    proof {
        assert forall|j: int| 0 <= j < 17 implies (#[trigger] t@[j])@ == name_v(j) by {
        }
    }
    t
}

/// The gravitational constant applied to a mass: `G = 6.674e-11`, taken as
/// the exact mantissa operation `mass / 10^14 * 6674`.
pub open spec fn grav_param_v(m: Fx) -> Fx {
    let q = mag(m.m as int) / 100000000000000 * 6674;
    Fx { m: (if cl(m.m as int) < 0 { -q } else { q }) as i128 }
}

/// Gravitational parameter `G * mass` of a body.
pub fn grav_param(mass: Fx) -> (r: Fx)
    ensures
        r == grav_param_v(mass),
        mass.m >= 0 ==> r.m >= 0,
{
    let neg = mass.m < 0;
    let mg = mass.mag_of();
    let q0 = mg / 100000000000000;
    proof {
        vstd::arithmetic::div_mod::lemma_div_is_ordered(
            mg as int,
            CAP_U as int,
            100000000000000,
        );
        vstd::arithmetic::div_mod::lemma_div_pos_is_pos(mg as int, 100000000000000);
    }
    let q = q0 * 6674;
    if neg {
        Fx { m: -(q as i128) }
    } else {
        Fx { m: q as i128 }
    }
}

/// What a successful build is: exactly the table's bodies, each carrying the
/// table's name, colour, mass and radius, and the initial orbit that
/// [`orbits_v`] assigns its row. Everything here is a function of the fixed
/// table alone.
pub open spec fn built_ok(bodies: Seq<Celestial>) -> bool {
    &&& orbits_v(table_v()) is Ok
    &&& bodies.len() == 17
    &&& forall|j: int|
        0 <= j < 17 ==> (#[trigger] bodies[j]).orbit == ok_orbits(orbits_v(table_v()))[j]
    &&& forall|j: int|
        0 <= j < 17 ==> (#[trigger] bodies[j]).mass == table_v()[j].mass && bodies[j].radius
            == table_v()[j].radius && bodies[j].colour == table_v()[j].colour
    &&& forall|j: int| 0 <= j < 17 ==> ((#[trigger] bodies[j]).name)@ == name_v(j)
}

/// Determinism of the fixture: any two successful builds agree, body for
/// body, on name, colour, mass, radius, and the initial position and
/// velocity — the build is a function of the fixed table and nothing else.
pub proof fn lemma_build_deterministic(a: Seq<Celestial>, b: Seq<Celestial>)
    requires
        built_ok(a),
        built_ok(b),
    ensures
        a.len() == b.len(),
        forall|j: int| 0 <= j < a.len() ==> (#[trigger] a[j]).orbit == b[j].orbit,
        forall|j: int|
            0 <= j < a.len() ==> (#[trigger] a[j]).mass == b[j].mass && a[j].radius
                == b[j].radius && a[j].colour == b[j].colour,
        forall|j: int| 0 <= j < a.len() ==> ((#[trigger] a[j]).name)@ == (b[j].name)@,
{
}

/// Construct the full fixture: the root star with the fixed zero state, then
/// each planet and moon by Keplerian conversion against its parent's
/// already-absolute state, in table order. A failure of one body's
/// construction is fatal to the build and surfaced; the bodies already
/// constructed are unaffected by the failing row (they are merely dropped
/// with the partial build).
#[verifier::rlimit(100)]
pub fn kerbolar_system() -> (r: Result<Vec<Celestial>, KeplerError>)
    ensures
        match r {
            Ok(bodies) => built_ok(bodies@),
            Err(e) => orbits_v(table_v()) == Err::<Seq<StateVectors>, KeplerError>(e),
        },
{
    let rows = kerbolar_table();
    let mut names = kerbolar_names();
    let ghost names0 = names@;
    let mut bodies: Vec<Celestial> = Vec::new();
    let ghost mut acc = Seq::<StateVectors>::empty();
    let mut i: usize = 0;
    proof {
        reveal(table_v);
        assert(table_v().len() == 17);
    }
    while i < 17
        invariant
            rows@ == table_v(),
            table_v().len() == 17,
            names0.len() == 17,
            forall|j: int| 0 <= j < 17 ==> (#[trigger] names0[j])@ == name_v(j),
            names@ == names0.skip(i as int),
            i <= 17,
            bodies@.len() == i as int,
            acc.len() == i as int,
            forall|j: int| 0 <= j < i as int ==> (#[trigger] bodies@[j]).orbit == acc[j],
            forall|j: int|
                0 <= j < i as int ==> (#[trigger] bodies@[j]).mass == table_v()[j].mass
                    && bodies@[j].radius == table_v()[j].radius && bodies@[j].colour
                    == table_v()[j].colour,
            forall|j: int| 0 <= j < i as int ==> ((#[trigger] bodies@[j]).name)@ == name_v(j),
            orbits_v(table_v()) == orbits_rec(table_v(), i as int, acc),
        decreases 17 - i,
    {
        let row = rows[i];
        let nm = names.remove(0);
        proof {
            assert(names0.skip(i as int)[0] == names0[i as int]);
            assert(names0.skip(i as int).remove(0) =~= names0.skip(i as int + 1));
        }
        let sv: StateVectors = match row.origin {
            Origin::Root => StateVectors { position: V3::zero(), velocity: V3::zero() },
            Origin::Orbits { parent, elements } => {
                if parent >= bodies.len() {
                    return Err(KeplerError::DegenerateVector);
                }
                let gm = grav_param(bodies[parent].mass);
                proof {
                    assert(bodies@[parent as int].mass == table_v()[parent as int].mass);
                }
                if elements.ecc.m < 0 || elements.ecc.m >= SCALE || gm.m < 0 {
                    return Err(KeplerError::DegenerateVector);
                }
                let sv0 = match StateVectors::from_keplerian(
                    gm,
                    elements.sma,
                    elements.ecc,
                    elements.inc,
                    elements.aop,
                    elements.lan,
                    elements.ma,
                ) {
                    Err(e) => {
                        return Err(e);
                    },
                    Ok(sv0) => sv0,
                };
                sv0.relative_to(&bodies[parent].orbit)
            },
        };
        bodies.push(
            Celestial {
                name: nm,
                colour: row.colour,
                mass: row.mass,
                radius: row.radius,
                orbit: sv,
            },
        );
        proof {
            acc = acc.push(sv);
        }
        i = i + 1;
    }
    Ok(bodies)
}

} // verus!
