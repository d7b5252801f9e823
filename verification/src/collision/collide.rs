//! Edge numbering of a box and the discrete side of box-box clipping.
//!
//! Vertices and edges of a box are numbered counter-clockwise:
//!
//! ```text
//!        ^ y
//!        |
//!        e1
//!   v2 ------ v1
//!    |        |
//! e2 |        | e4  --> x
//!    |        |
//!   v3 ------ v4
//!        e3
//! ```

use vstd::prelude::*;
use crate::collision::arbiter::FeaturePair;

verus! {

/// One of the four candidate separating axes: a face normal of the first box
/// (`FaceAX`, `FaceAY`) or of the second box (`FaceBX`, `FaceBY`).
#[derive(Copy, Clone, Debug, PartialEq, Eq, Structural)]
pub enum Axis {
    FaceAX,
    FaceAY,
    FaceBX,
    FaceBY,
}

/// An edge of a box, or the absence of one.
#[derive(Copy, Clone, Debug, PartialEq, Eq, Hash, Structural)]
pub enum EdgeNumber {
    NoEdge,
    Edge1,
    Edge2,
    Edge3,
    Edge4,
}

impl EdgeNumber {
    /// The byte that stands for this edge slot.
    pub open spec fn code(self) -> u8 {
        match self {
            EdgeNumber::NoEdge => 0u8,
            EdgeNumber::Edge1 => 1u8,
            EdgeNumber::Edge2 => 2u8,
            EdgeNumber::Edge3 => 3u8,
            EdgeNumber::Edge4 => 4u8,
        }
    }

    /// The edge slot a byte stands for; bytes that stand for none read as `NoEdge`.
    pub open spec fn decode(v: u8) -> EdgeNumber {
        if v == 1 {
            EdgeNumber::Edge1
        } else if v == 2 {
            EdgeNumber::Edge2
        } else if v == 3 {
            EdgeNumber::Edge3
        } else if v == 4 {
            EdgeNumber::Edge4
        } else {
            EdgeNumber::NoEdge
        }
    }

    /// Reads an edge slot from a byte, defensively: any byte above 4 gives `NoEdge`.
    #[inline]
    pub fn from_u8(v: u8) -> (e: EdgeNumber)
        ensures
            e == EdgeNumber::decode(v),
    {
        match v {
            1 => EdgeNumber::Edge1,
            2 => EdgeNumber::Edge2,
            3 => EdgeNumber::Edge3,
            4 => EdgeNumber::Edge4,
            _ => EdgeNumber::NoEdge,
        }
    }

    /// The byte of this edge slot.
    #[inline]
    pub fn to_u8(self) -> (v: u8)
        ensures
            v == self.code(),
    {
        match self {
            EdgeNumber::NoEdge => 0,
            EdgeNumber::Edge1 => 1,
            EdgeNumber::Edge2 => 2,
            EdgeNumber::Edge3 => 3,
            EdgeNumber::Edge4 => 4,
        }
    }

    /// Decoding the byte of an edge slot gives the slot back.
    pub proof fn decode_inverts_code(e: EdgeNumber)
        ensures
            EdgeNumber::decode(e.code()) == e,
            e.code() <= 4,
    {
    }

    /// A byte up to 4 is the byte of the slot it decodes to, and every other
    /// byte decodes to `NoEdge`.
    pub proof fn decode_is_defensive(v: u8)
        ensures
            v <= 4 ==> EdgeNumber::decode(v).code() == v,
            v > 4 ==> EdgeNumber::decode(v) == EdgeNumber::NoEdge,
    {
    }
}

impl Default for EdgeNumber {
    fn default() -> (e: EdgeNumber)
        ensures
            e == EdgeNumber::NoEdge,
    {
        EdgeNumber::NoEdge
    }
}

impl Axis {
    /// Whether the axis is a face normal of the first box.
    pub open spec fn on_first(self) -> bool {
        self == Axis::FaceAX || self == Axis::FaceAY
    }

    /// Whether the axis is the x axis of the box it belongs to.
    pub open spec fn along_x(self) -> bool {
        self == Axis::FaceAX || self == Axis::FaceBX
    }
}

impl EdgeNumber {
    /// The edge of a box whose outward normal is the box's own x axis
    /// (`along_x`) or y axis, in the positive or the negative direction.
    pub open spec fn facing(along_x: bool, positive: bool) -> EdgeNumber {
        if along_x {
            if positive {
                EdgeNumber::Edge4
            } else {
                EdgeNumber::Edge2
            }
        } else {
            if positive {
                EdgeNumber::Edge1
            } else {
                EdgeNumber::Edge3
            }
        }
    }

    /// The projection of the direction `(nx, ny)`, given in the box's own
    /// frame, on the outward normal of this edge. The outward normals are
    /// `(0, 1)` for `Edge1`, `(-1, 0)` for `Edge2`, `(0, -1)` for `Edge3` and
    /// `(1, 0)` for `Edge4`; `NoEdge` has none and projects to zero.
    pub open spec fn projection(self, nx: int, ny: int) -> int {
        match self {
            EdgeNumber::NoEdge => 0,
            EdgeNumber::Edge1 => ny,
            EdgeNumber::Edge2 => -nx,
            EdgeNumber::Edge3 => -ny,
            EdgeNumber::Edge4 => nx,
        }
    }

    /// The edge that follows this one counter-clockwise.
    pub open spec fn next(self) -> EdgeNumber {
        match self {
            EdgeNumber::NoEdge => EdgeNumber::NoEdge,
            EdgeNumber::Edge1 => EdgeNumber::Edge2,
            EdgeNumber::Edge2 => EdgeNumber::Edge3,
            EdgeNumber::Edge3 => EdgeNumber::Edge4,
            EdgeNumber::Edge4 => EdgeNumber::Edge1,
        }
    }

    /// The edge that comes before this one counter-clockwise.
    pub open spec fn previous(self) -> EdgeNumber {
        match self {
            EdgeNumber::NoEdge => EdgeNumber::NoEdge,
            EdgeNumber::Edge1 => EdgeNumber::Edge4,
            EdgeNumber::Edge2 => EdgeNumber::Edge1,
            EdgeNumber::Edge3 => EdgeNumber::Edge2,
            EdgeNumber::Edge4 => EdgeNumber::Edge3,
        }
    }

    /// Whether the vertex at which this edge starts, going counter-clockwise,
    /// lies on the positive x side of the box.
    pub open spec fn starts_at_positive_x(self) -> bool {
        self == EdgeNumber::Edge1 || self == EdgeNumber::Edge4
    }

    /// Whether the vertex at which this edge starts, going counter-clockwise,
    /// lies on the positive y side of the box.
    pub open spec fn starts_at_positive_y(self) -> bool {
        self == EdgeNumber::Edge1 || self == EdgeNumber::Edge2
    }
}

/// Swaps the two boxes' slots of a feature identifier.
pub fn flip(fp: &mut FeaturePair)
    ensures
        *final(fp) == old(fp).flipped(),
{
    let in1 = fp.in_edge1;
    let out1 = fp.out_edge1;
    fp.in_edge1 = fp.in_edge2;
    fp.out_edge1 = fp.out_edge2;
    fp.in_edge2 = in1;
    fp.out_edge2 = out1;
}

/// The reference face of a manifold: the box that carries it, the axis of
/// that box along which its normal runs, and the two edges of that box that
/// bound the face, the one on the negative and the one on the positive side of
/// the box's other axis.
#[derive(Copy, Clone, Debug, PartialEq, Eq, Structural)]
pub struct ReferenceFace {
    pub on_first: bool,
    pub along_x: bool,
    pub neg_edge: EdgeNumber,
    pub pos_edge: EdgeNumber,
}

impl ReferenceFace {
    /// The reference face that belongs to a separating axis.
    pub open spec fn of_axis(axis: Axis) -> ReferenceFace {
        ReferenceFace {
            on_first: axis.on_first(),
            along_x: axis.along_x(),
            neg_edge: EdgeNumber::facing(!axis.along_x(), false),
            pos_edge: EdgeNumber::facing(!axis.along_x(), true),
        }
    }
}

/// Sets up the clipping of a manifold from the separating axis that was
/// chosen: which box is the reference box, which of its axes the face normal
/// follows, and by which edges the two side planes are named.
pub fn reference_face(axis: Axis) -> (face: ReferenceFace)
    ensures
        face == ReferenceFace::of_axis(axis),
{
    match axis {
        Axis::FaceAX => ReferenceFace {
            on_first: true,
            along_x: true,
            neg_edge: EdgeNumber::Edge3,
            pos_edge: EdgeNumber::Edge1,
        },
        Axis::FaceAY => ReferenceFace {
            on_first: true,
            along_x: false,
            neg_edge: EdgeNumber::Edge2,
            pos_edge: EdgeNumber::Edge4,
        },
        Axis::FaceBX => ReferenceFace {
            on_first: false,
            along_x: true,
            neg_edge: EdgeNumber::Edge3,
            pos_edge: EdgeNumber::Edge1,
        },
        Axis::FaceBY => ReferenceFace {
            on_first: false,
            along_x: false,
            neg_edge: EdgeNumber::Edge2,
            pos_edge: EdgeNumber::Edge4,
        },
    }
}

/// One end of the incident edge: the corner of the incident box it lies at,
/// given by the signs of its two coordinates in the box's own frame, and its
/// feature identifier.
#[derive(Copy, Clone, Debug, PartialEq, Eq, Structural)]
pub struct IncidentVertex {
    pub positive_x: bool,
    pub positive_y: bool,
    pub fp: FeaturePair,
}

impl IncidentVertex {
    /// The vertex at which `edge` starts, going counter-clockwise. Its
    /// identifier names, in the second box's slots, the edge that ends there
    /// and `edge` itself.
    pub open spec fn start_of(edge: EdgeNumber) -> IncidentVertex {
        IncidentVertex {
            positive_x: edge.starts_at_positive_x(),
            positive_y: edge.starts_at_positive_y(),
            fp: FeaturePair {
                in_edge1: EdgeNumber::NoEdge,
                out_edge1: EdgeNumber::NoEdge,
                in_edge2: edge.previous(),
                out_edge2: edge,
            },
        }
    }
}

/// The edge that `facing` picks is the one that faces a direction most
/// directly: for a direction `(nx, ny)` in the box's frame, with `x_dominant`
/// and `positive` read off its components as the narrow phase reads them, no
/// edge has an outward normal with a larger projection on the direction.
pub proof fn facing_edge_is_most_aligned(nx: int, ny: int, other: EdgeNumber)
    ensures
        ({
            let x_dominant = vstd::math::abs(nx) > vstd::math::abs(ny);
            let positive = if x_dominant {
                nx >= 0
            } else {
                ny >= 0
            };
            let edge = EdgeNumber::facing(x_dominant, positive);
            edge.projection(nx, ny) >= other.projection(nx, ny)
        }),
{
}

/// Both ends of the edge that faces a direction lie on the side of the box
/// that the direction points to.
pub proof fn incident_ends_lie_on_the_facing_side(x_dominant: bool, positive: bool)
    ensures
        ({
            let edge = EdgeNumber::facing(x_dominant, positive);
            let first = IncidentVertex::start_of(edge);
            let second = IncidentVertex::start_of(edge.next());
            if x_dominant {
                first.positive_x == positive && second.positive_x == positive && first.positive_y
                    != second.positive_y
            } else {
                first.positive_y == positive && second.positive_y == positive && first.positive_x
                    != second.positive_x
            }
        }),
{
}

/// Both ends of an edge of a box name that edge: the vertex at which it
/// starts as the way out, the vertex at which it ends as the way in.
pub proof fn incident_ends_share_the_edge(edge: EdgeNumber)
    ensures
        IncidentVertex::start_of(edge).fp.out_edge2 == edge,
        IncidentVertex::start_of(edge.next()).fp.in_edge2 == edge,
        edge != EdgeNumber::NoEdge ==> IncidentVertex::start_of(edge).fp
            != IncidentVertex::start_of(edge.next()).fp,
{
}

/// Picks the incident edge: the edge of the incident box that faces the
/// reference face most directly, as its two end vertices in counter-clockwise
/// order.
///
/// `x_dominant` says that the reference normal, taken into the incident box's
/// frame and reversed, has its larger absolute component along x; `positive`
/// says that this component is not negative.
pub fn incident_edge(x_dominant: bool, positive: bool) -> (ends: (IncidentVertex, IncidentVertex))
    ensures
        ends.0 == IncidentVertex::start_of(EdgeNumber::facing(x_dominant, positive)),
        ends.1 == IncidentVertex::start_of(EdgeNumber::facing(x_dominant, positive).next()),
{
    let none = EdgeNumber::NoEdge;
    if x_dominant {
        if positive {
            (
                IncidentVertex {
                    positive_x: true,
                    positive_y: false,
                    fp: FeaturePair::new(none, none, EdgeNumber::Edge3, EdgeNumber::Edge4),
                },
                IncidentVertex {
                    positive_x: true,
                    positive_y: true,
                    fp: FeaturePair::new(none, none, EdgeNumber::Edge4, EdgeNumber::Edge1),
                },
            )
        } else {
            (
                IncidentVertex {
                    positive_x: false,
                    positive_y: true,
                    fp: FeaturePair::new(none, none, EdgeNumber::Edge1, EdgeNumber::Edge2),
                },
                IncidentVertex {
                    positive_x: false,
                    positive_y: false,
                    fp: FeaturePair::new(none, none, EdgeNumber::Edge2, EdgeNumber::Edge3),
                },
            )
        }
    } else {
        if positive {
            (
                IncidentVertex {
                    positive_x: true,
                    positive_y: true,
                    fp: FeaturePair::new(none, none, EdgeNumber::Edge4, EdgeNumber::Edge1),
                },
                IncidentVertex {
                    positive_x: false,
                    positive_y: true,
                    fp: FeaturePair::new(none, none, EdgeNumber::Edge1, EdgeNumber::Edge2),
                },
            )
        } else {
            (
                IncidentVertex {
                    positive_x: false,
                    positive_y: false,
                    fp: FeaturePair::new(none, none, EdgeNumber::Edge2, EdgeNumber::Edge3),
                },
                IncidentVertex {
                    positive_x: true,
                    positive_y: false,
                    fp: FeaturePair::new(none, none, EdgeNumber::Edge3, EdgeNumber::Edge4),
                },
            )
        }
    }
}

/// Where a point that survives a clip comes from: it is the first or the
/// second end of the segment that was clipped, or the point at which the
/// segment crosses the clipping line.
#[derive(Copy, Clone, Debug, PartialEq, Eq, Structural)]
pub enum ClipOrigin {
    First,
    Second,
    Crossing,
}

/// A point that survives a clip, with its feature identifier.
#[derive(Copy, Clone, Debug, PartialEq, Eq, Structural)]
pub struct ClipPoint {
    pub origin: ClipOrigin,
    pub fp: FeaturePair,
}

impl ClipPoint {
    /// The identifier of the point at which a segment crosses the clipping
    /// line. Where the first end lies outside, the segment comes in through
    /// `clip_edge` of the reference box; otherwise it goes out through it. On
    /// the incident box the matching slot no longer names an edge.
    pub open spec fn crossing_feature(
        first: FeaturePair,
        second: FeaturePair,
        inside_first: bool,
        clip_edge: EdgeNumber,
    ) -> FeaturePair {
        if !inside_first {
            FeaturePair { in_edge1: clip_edge, in_edge2: EdgeNumber::NoEdge, ..first }
        } else {
            FeaturePair { out_edge1: clip_edge, out_edge2: EdgeNumber::NoEdge, ..second }
        }
    }

    /// What is left of a segment after a clip: each end that lies inside, in
    /// order, and then the crossing point if there is one.
    pub open spec fn clipped(
        first: FeaturePair,
        second: FeaturePair,
        inside_first: bool,
        inside_second: bool,
        crossing: bool,
        clip_edge: EdgeNumber,
    ) -> Seq<ClipPoint> {
        let kept_first = if inside_first {
            seq![ClipPoint { origin: ClipOrigin::First, fp: first }]
        } else {
            seq![]
        };
        let kept_second = if inside_second {
            seq![ClipPoint { origin: ClipOrigin::Second, fp: second }]
        } else {
            seq![]
        };
        let cut = if crossing {
            seq![
                ClipPoint {
                    origin: ClipOrigin::Crossing,
                    fp: ClipPoint::crossing_feature(first, second, inside_first, clip_edge),
                },
            ]
        } else {
            seq![]
        };
        kept_first + kept_second + cut
    }
}

/// Clips a segment against a line, on the level of which points survive and
/// what they are called.
///
/// `inside_first` and `inside_second` say of each end whether it lies on the
/// kept side of the line or on the line; `crossing` says that the two ends lie
/// strictly on opposite sides of it, so it never comes with both ends inside.
pub fn clip_segment(
    first: FeaturePair,
    second: FeaturePair,
    inside_first: bool,
    inside_second: bool,
    crossing: bool,
    clip_edge: EdgeNumber,
) -> (points: Vec<ClipPoint>)
    requires
        !(crossing && inside_first && inside_second),
    ensures
        points@ == ClipPoint::clipped(
            first,
            second,
            inside_first,
            inside_second,
            crossing,
            clip_edge,
        ),
        points@.len() <= 2,
        points@.len() == 2 <==> (inside_first && inside_second) || (crossing && (inside_first
            || inside_second)),
{
    let mut points: Vec<ClipPoint> = Vec::new();
    if inside_first {
        points.push(ClipPoint { origin: ClipOrigin::First, fp: first });
    }
    if inside_second {
        points.push(ClipPoint { origin: ClipOrigin::Second, fp: second });
    }
    if crossing {
        let mut fp = if inside_first {
            second
        } else {
            first
        };
        if inside_first {
            fp.out_edge1 = clip_edge;
            fp.out_edge2 = EdgeNumber::NoEdge;
        } else {
            fp.in_edge1 = clip_edge;
            fp.in_edge2 = EdgeNumber::NoEdge;
        }
        points.push(ClipPoint { origin: ClipOrigin::Crossing, fp });
    }
    assert(points@ =~= ClipPoint::clipped(
        first,
        second,
        inside_first,
        inside_second,
        crossing,
        clip_edge,
    ));
    points
}

/// The identifier under which a clipped point is reported as a contact. The
/// slots of a contact always name the first box's edges first, so where the
/// reference face lies on the second box the two halves change places.
pub fn contact_feature(axis: Axis, clipped: FeaturePair) -> (fp: FeaturePair)
    ensures
        fp == if axis.on_first() {
            clipped
        } else {
            clipped.flipped()
        },
{
    let mut fp = clipped;
    match axis {
        Axis::FaceAX | Axis::FaceAY => {},
        Axis::FaceBX | Axis::FaceBY => {
            flip(&mut fp);
        },
    }
    fp
}

/// The two points of a manifold never share a feature identifier.
///
/// Whatever incident edge is picked and however the two clips fall, if two
/// points are left after the clip against the negative side and again after
/// the clip against the positive side, then the identifiers under which they
/// are reported differ, and so do their keys. Each clip is given by its three
/// answers: first end inside, second end inside, crossing.
pub proof fn manifold_features_are_distinct(
    axis: Axis,
    x_dominant: bool,
    positive: bool,
    neg_clip: (bool, bool, bool),
    pos_clip: (bool, bool, bool),
)
    requires
        !(neg_clip.2 && neg_clip.0 && neg_clip.1),
        !(pos_clip.2 && pos_clip.0 && pos_clip.1),
    ensures
        ({
            let face = ReferenceFace::of_axis(axis);
            let edge = EdgeNumber::facing(x_dominant, positive);
            let once = ClipPoint::clipped(
                IncidentVertex::start_of(edge).fp,
                IncidentVertex::start_of(edge.next()).fp,
                neg_clip.0,
                neg_clip.1,
                neg_clip.2,
                face.neg_edge,
            );
            once.len() == 2 ==> {
                let twice = ClipPoint::clipped(
                    once[0].fp,
                    once[1].fp,
                    pos_clip.0,
                    pos_clip.1,
                    pos_clip.2,
                    face.pos_edge,
                );
                twice.len() == 2 ==> {
                    let p = if axis.on_first() {
                        twice[0].fp
                    } else {
                        twice[0].fp.flipped()
                    };
                    let q = if axis.on_first() {
                        twice[1].fp
                    } else {
                        twice[1].fp.flipped()
                    };
                    p != q && p.packed() != q.packed()
                }
            }
        }),
{
    let face = ReferenceFace::of_axis(axis);
    let edge = EdgeNumber::facing(x_dominant, positive);
    let once = ClipPoint::clipped(
        IncidentVertex::start_of(edge).fp,
        IncidentVertex::start_of(edge.next()).fp,
        neg_clip.0,
        neg_clip.1,
        neg_clip.2,
        face.neg_edge,
    );
    if once.len() == 2 {
        let twice = ClipPoint::clipped(
            once[0].fp,
            once[1].fp,
            pos_clip.0,
            pos_clip.1,
            pos_clip.2,
            face.pos_edge,
        );
        if twice.len() == 2 {
            let p = if axis.on_first() {
                twice[0].fp
            } else {
                twice[0].fp.flipped()
            };
            let q = if axis.on_first() {
                twice[1].fp
            } else {
                twice[1].fp.flipped()
            };
            assert(p != q);
            if p.packed() == q.packed() {
                FeaturePair::key_is_injective(p, q);
            }
        }
    }
}

} // verus!
