//! Declarations of the geometry and paint types of `kurbo` and `peniko`
//! that the library carries through its logic without looking inside.

use vstd::prelude::*;

verus! {

#[verifier::external_type_specification]
#[verifier::external_body]
pub struct ExAffine(kurbo::Affine);

#[verifier::external_type_specification]
#[verifier::external_body]
pub struct ExRect(kurbo::Rect);

#[verifier::external_type_specification]
#[verifier::external_body]
pub struct ExBezPath(kurbo::BezPath);

#[verifier::external_type_specification]
#[verifier::external_body]
pub struct ExVec2(kurbo::Vec2);

#[verifier::external_type_specification]
#[verifier::external_body]
pub struct ExBlendMode(peniko::BlendMode);

#[verifier::external_type_specification]
#[verifier::external_body]
pub struct ExGradient(peniko::Gradient);

#[verifier::external_type_specification]
#[verifier::external_body]
pub struct ExImageQuality(peniko::ImageQuality);

#[verifier::external_type_specification]
#[verifier::external_body]
pub struct ExSrgb(peniko::color::Srgb);

#[verifier::external_type_specification]
#[verifier::external_body]
#[verifier::reject_recursive_types(CS)]
pub struct ExAlphaColor<CS>(peniko::color::AlphaColor<CS>);

#[verifier::external_type_specification]
#[verifier::external_body]
#[verifier::reject_recursive_types(CS)]
pub struct ExPremulColor<CS>(peniko::color::PremulColor<CS>);

/// `kurbo::Rect` derives `Clone` and `Copy`: a clone is the value itself.
pub assume_specification[<kurbo::Rect as Clone>::clone](r: &kurbo::Rect) -> (c: kurbo::Rect)
    ensures
        c == *r,
;

/// `kurbo::Vec2` derives `Clone` and `Copy`: a clone is the value itself.
pub assume_specification[<kurbo::Vec2 as Clone>::clone](v: &kurbo::Vec2) -> (c: kurbo::Vec2)
    ensures
        c == *v,
;

/// `AlphaColor` derives `Clone` and `Copy`: a clone is the value itself.
pub assume_specification<CS: Clone>[<peniko::color::AlphaColor<CS> as Clone>::clone](
    c: &peniko::color::AlphaColor<CS>,
) -> (d: peniko::color::AlphaColor<CS>)
    ensures
        d == *c,
;

/// `peniko::Gradient` derives `Clone`; nothing of the copy is stated here.
pub assume_specification[<peniko::Gradient as Clone>::clone](g: &peniko::Gradient) -> (h:
    peniko::Gradient);

} // verus!
