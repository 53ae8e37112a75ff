//! Document-object models for equation strokes.
//!
//! The real document store keeps rendered vector images with full affine
//! transforms. The pen's rules only ever read a few plain facts from that
//! geometry — the upper-left corner, and the transformed x-axis whose
//! length is the object's scale — so exactly those are modelled here, in
//! fixed-point coordinates (see [`crate::geometry`]).

use vstd::prelude::*;

use crate::config::EquationConfig;
use crate::geometry::FxVector;

verus! {

/// Placeholder markup stored in a freshly created equation object before
/// its first successful compilation.
pub const DEFAULT_SVG_CODE: &'static str =
    "<svg xmlns=\"http://www.w3.org/2000/svg\" width=\"4\" height=\"4\"></svg>";

/// The geometry the pen reads from a stored object: its upper-left corner
/// and its transformed x-axis. The axis of an untransformed object is the
/// unit x vector (`x == 1000, y == 0`); scaling stretches it, rotation
/// turns it.
#[derive(Debug, Clone, Copy, PartialEq, Eq, Structural)]
pub struct Rectangle {
    pub upper_left: FxVector,
    pub x_axis: FxVector,
}

impl Rectangle {
    /// Both vectors within coordinate bounds.
    pub open spec fn wf(self) -> bool {
        self.upper_left.wf() && self.x_axis.wf()
    }
}

/// A rendered vector image: its markup source and its placement.
#[derive(Debug, Clone)]
pub struct VectorImage {
    pub svg_code: String,
    pub rectangle: Rectangle,
}

/// An equation object as stored in the document: the current equation
/// code, the style snapshot it was last configured with, and the last
/// rendered vector content (if any).
#[derive(Debug, Clone)]
pub struct EquationImage {
    pub equation_code: String,
    pub equation_config: EquationConfig,
    pub vector_image: Option<VectorImage>,
}

impl EquationImage {
    /// Whether this object carries rendered content with sound geometry.
    pub open spec fn wf(self) -> bool {
        self.vector_image is Some && self.vector_image->Some_0.rectangle.wf()
    }

    /// A fresh equation object at `pos` with placeholder rendered content,
    /// an untransformed axis, and a copy of the given configuration.
    pub fn new(equation_code: &str, equation_config: &EquationConfig, pos: FxVector) -> (r:
        EquationImage)
        requires
            pos.wf(),
        ensures
            r.wf(),
            r.equation_code@ == equation_code@,
            r.equation_config == *equation_config,
            r.vector_image->Some_0.svg_code@ == DEFAULT_SVG_CODE@,
            r.vector_image->Some_0.rectangle == (Rectangle {
                upper_left: pos,
                x_axis: FxVector { x: 1000, y: 0 },
            }),
    {
        let mut code = String::new();
        code.append(equation_code);
        EquationImage {
            equation_code: code,
            equation_config: equation_config.clone(),
            vector_image: Some(
                VectorImage {
                    svg_code: {
                        let mut svg = String::new();
                        svg.append(DEFAULT_SVG_CODE);
                        svg
                    },
                    rectangle: Rectangle { upper_left: pos, x_axis: FxVector { x: 1000, y: 0 } },
                },
            ),
        }
    }

    /// Replaces the rendered content with freshly compiled markup; the
    /// object keeps its place and transform.
    pub fn update_svg_code(&mut self, svg_code: &str)
        requires
            old(self).vector_image is Some,
        ensures
            final(self).vector_image is Some,
            final(self).vector_image->Some_0.svg_code@ == svg_code@,
            final(self).vector_image->Some_0.rectangle == old(
                self,
            ).vector_image->Some_0.rectangle,
            final(self).equation_code == old(self).equation_code,
            final(self).equation_config == old(self).equation_config,
    {
        let rectangle = match &self.vector_image {
            Some(image) => image.rectangle,
            None => Rectangle {
                upper_left: FxVector { x: 0, y: 0 },
                x_axis: FxVector { x: 1000, y: 0 },
            },
        };
        let mut svg = String::new();
        svg.append(svg_code);
        self.vector_image = Some(VectorImage { svg_code: svg, rectangle });
    }

    /// The stored object's placement and transform axis.
    pub fn access_rectangle(&self) -> (r: &Rectangle)
        requires
            self.vector_image is Some,
        ensures
            *r == self.vector_image->Some_0.rectangle,
    {
        match &self.vector_image {
            Some(image) => &image.rectangle,
            None => unreached(),
        }
    }

    /// Copies another rectangle's transform axis while keeping this
    /// rectangle's upper-left corner where it is.
    pub fn copy_transform_preserve_position(
        this_rectangle: &mut Rectangle,
        other_rectangle: &Rectangle,
    )
        ensures
            final(this_rectangle).x_axis == other_rectangle.x_axis,
            final(this_rectangle).upper_left == old(this_rectangle).upper_left,
    {
        this_rectangle.x_axis = other_rectangle.x_axis;
    }
}

/// An equation object of the modal-editor lineage: equation code plus the
/// last rendered vector content.
#[derive(Debug, Clone)]
pub struct LatexImage {
    pub latex_code: String,
    pub vector_image: Option<VectorImage>,
}

impl LatexImage {
    /// Takes over the placement and transform of another image (used when
    /// re-rendered content replaces an existing object).
    pub fn copy_transform(&mut self, latex_image: &LatexImage)
        requires
            old(self).vector_image is Some,
            latex_image.vector_image is Some,
        ensures
            final(self).vector_image is Some,
            final(self).vector_image->Some_0.rectangle
                == latex_image.vector_image->Some_0.rectangle,
            final(self).vector_image->Some_0.svg_code == old(
                self,
            ).vector_image->Some_0.svg_code,
            final(self).latex_code == old(self).latex_code,
    {
        let rectangle = match &latex_image.vector_image {
            Some(image) => image.rectangle,
            None => unreached(),
        };
        match &mut self.vector_image {
            Some(image) => {
                image.rectangle = rectangle;
            },
            None => unreached(),
        }
    }
}

} // verus!
