//! The layout tree: stacks that arrange their items in a line, and the
//! leaf controls they hold.

use vstd::prelude::*;

use crate::margins::{Dimension, DimensionBuilder, Margin, MarginBuilder, Padding, PaddingBuilder};

verus! {

/// A node of the layout tree.
pub enum Control {
    /// Takes no space and creates nothing.
    Empty,
    VStack(VStack),
    HStack(HStack),
    InputText(InputText),
    Button(Button),
}

/// Items laid out top to bottom, `spacing` apart.
pub struct VStack {
    pub padding: Padding,
    pub items: Vec<Control>,
    pub spacing: i32,
}

impl VStack {
    pub fn new() -> (r: Self)
        ensures
            r.padding == (Padding { right: 0, left: 0, top: 0, bottom: 0 }),
            r.items@.len() == 0,
            r.spacing == 0,
    {
        VStack { padding: Padding::default(), items: Vec::new(), spacing: 0 }
    }

    pub fn spacing(self, v: i32) -> (r: Self)
        ensures
            r == (VStack { spacing: v, ..self }),
    {
        let mut s = self;
        s.spacing = v;
        s
    }

    pub fn items(self, v: Vec<Control>) -> (r: Self)
        ensures
            r == (VStack { items: v, ..self }),
    {
        let mut s = self;
        s.items = v;
        s
    }

    pub fn done(self) -> (r: Control)
        ensures
            r == Control::VStack(self),
    {
        Control::VStack(self)
    }
}

impl PaddingBuilder for VStack {
    open spec fn padding_of(&self) -> Padding {
        self.padding
    }

    open spec fn with_padding(self, p: Padding) -> Self {
        VStack { padding: p, ..self }
    }

    proof fn lemma_with_padding(self, a: Padding, b: Padding) {
    }

    fn get_padding(&self) -> (r: Padding) {
        self.padding
    }

    fn set_padding(&mut self, p: Padding) {
        self.padding = p;
    }
}

/// Items laid out left to right, `spacing` apart.
pub struct HStack {
    pub padding: Padding,
    pub items: Vec<Control>,
    pub spacing: i32,
}

impl HStack {
    pub fn new() -> (r: Self)
        ensures
            r.padding == (Padding { right: 0, left: 0, top: 0, bottom: 0 }),
            r.items@.len() == 0,
            r.spacing == 0,
    {
        HStack { padding: Padding::default(), items: Vec::new(), spacing: 0 }
    }

    pub fn spacing(self, v: i32) -> (r: Self)
        ensures
            r == (HStack { spacing: v, ..self }),
    {
        let mut s = self;
        s.spacing = v;
        s
    }

    pub fn items(self, v: Vec<Control>) -> (r: Self)
        ensures
            r == (HStack { items: v, ..self }),
    {
        let mut s = self;
        s.items = v;
        s
    }

    pub fn done(self) -> (r: Control)
        ensures
            r == Control::HStack(self),
    {
        Control::HStack(self)
    }
}

impl PaddingBuilder for HStack {
    open spec fn padding_of(&self) -> Padding {
        self.padding
    }

    open spec fn with_padding(self, p: Padding) -> Self {
        HStack { padding: p, ..self }
    }

    proof fn lemma_with_padding(self, a: Padding, b: Padding) {
    }

    fn get_padding(&self) -> (r: Padding) {
        self.padding
    }

    fn set_padding(&mut self, p: Padding) {
        self.padding = p;
    }
}

/// A text input field holding `text`.
pub struct InputText {
    pub text: String,
    pub dimension: Dimension,
    pub margin: Margin,
}

impl InputText {
    pub fn new(text: &str) -> (r: Self)
        ensures
            r.text@ == text@,
            r.dimension == (Dimension { height: 0, width: 0 }),
            r.margin == (Margin { right: 0, left: 0, top: 0, bottom: 0 }),
    {
        InputText {
            text: text.to_owned(),
            dimension: Dimension::default(),
            margin: Margin::default(),
        }
    }

    pub fn done(self) -> (r: Control)
        ensures
            r == Control::InputText(self),
    {
        Control::InputText(self)
    }
}

impl MarginBuilder for InputText {
    open spec fn margin_of(&self) -> Margin {
        self.margin
    }

    open spec fn with_margin(self, m: Margin) -> Self {
        InputText { margin: m, ..self }
    }

    proof fn lemma_with_margin(self, a: Margin, b: Margin) {
    }

    fn get_margin(&self) -> (r: Margin) {
        self.margin
    }

    fn set_margin(&mut self, m: Margin) {
        self.margin = m;
    }
}

impl DimensionBuilder for InputText {
    open spec fn dimension_of(&self) -> Dimension {
        self.dimension
    }

    open spec fn with_dimension(self, d: Dimension) -> Self {
        InputText { dimension: d, ..self }
    }

    proof fn lemma_with_dimension(self, a: Dimension, b: Dimension) {
    }

    fn set_height(&mut self, v: i32) {
        self.dimension.height = v;
    }

    fn set_width(&mut self, v: i32) {
        self.dimension.width = v;
    }
}

/// A push button labelled `title`.
pub struct Button {
    pub title: String,
    pub dimension: Dimension,
    pub margin: Margin,
}

impl Button {
    pub fn new(title: &str) -> (r: Self)
        ensures
            r.title@ == title@,
            r.dimension == (Dimension { height: 0, width: 0 }),
            r.margin == (Margin { right: 0, left: 0, top: 0, bottom: 0 }),
    {
        Button {
            title: title.to_owned(),
            dimension: Dimension::default(),
            margin: Margin::default(),
        }
    }

    pub fn done(self) -> (r: Control)
        ensures
            r == Control::Button(self),
    {
        Control::Button(self)
    }
}

impl MarginBuilder for Button {
    open spec fn margin_of(&self) -> Margin {
        self.margin
    }

    open spec fn with_margin(self, m: Margin) -> Self {
        Button { margin: m, ..self }
    }

    proof fn lemma_with_margin(self, a: Margin, b: Margin) {
    }

    fn get_margin(&self) -> (r: Margin) {
        self.margin
    }

    fn set_margin(&mut self, m: Margin) {
        self.margin = m;
    }
}

impl DimensionBuilder for Button {
    open spec fn dimension_of(&self) -> Dimension {
        self.dimension
    }

    open spec fn with_dimension(self, d: Dimension) -> Self {
        Button { dimension: d, ..self }
    }

    proof fn lemma_with_dimension(self, a: Dimension, b: Dimension) {
    }

    fn set_height(&mut self, v: i32) {
        self.dimension.height = v;
    }

    fn set_width(&mut self, v: i32) {
        self.dimension.width = v;
    }
}

} // verus!
