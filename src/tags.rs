use vstd::prelude::*;

verus! {

/// The value of a `name = value` argument inside a tag.
#[derive(Clone, Copy, Debug, PartialEq, Eq)]
pub enum ArgValue {
    /// A boolean literal.
    Bool(bool),
    /// Any other literal (string, number, ...); never interpreted.
    Other,
}

/// One entry of a tag's argument list.
#[derive(Debug, PartialEq, Eq)]
pub enum NestedArg {
    /// A bare path reference such as `Create`, written as its source text.
    Path(String),
    /// A `name = value` pair.
    NameValue(String, ArgValue),
    /// Anything else (a literal, a nested list).
    Other,
}

/// The shape of a tag: bare, with an argument list, or something else.
#[derive(Debug, PartialEq, Eq)]
pub enum TagShape {
    /// `#[name]`
    Bare,
    /// `#[name(arg, ...)]`
    List(Vec<NestedArg>),
    /// `#[name = value]`, or a tag whose arguments could not be read.
    Other,
}

/// A tag attached to a record or to one of its fields.
#[derive(Debug, PartialEq, Eq)]
pub struct Tag {
    /// The tag's path as written (`primary_key`, `serde::rename`, ...).
    pub name: String,
    pub shape: TagShape,
}

/// Mathematical model of a [`NestedArg`].
pub enum NestedArgView {
    Path(Seq<char>),
    NameValue(Seq<char>, ArgValue),
    Other,
}

/// Mathematical model of a [`TagShape`].
pub enum TagShapeView {
    Bare,
    List(Seq<NestedArgView>),
    Other,
}

/// Mathematical model of a [`Tag`].
pub struct TagView {
    pub name: Seq<char>,
    pub shape: TagShapeView,
}

impl View for NestedArg {
    type V = NestedArgView;

    open spec fn view(&self) -> NestedArgView {
        match self {
            NestedArg::Path(p) => NestedArgView::Path(p@),
            NestedArg::NameValue(n, v) => NestedArgView::NameValue(n@, *v),
            NestedArg::Other => NestedArgView::Other,
        }
    }
}

impl View for TagShape {
    type V = TagShapeView;

    open spec fn view(&self) -> TagShapeView {
        match self {
            TagShape::Bare => TagShapeView::Bare,
            TagShape::List(args) => TagShapeView::List(args_view(args@)),
            TagShape::Other => TagShapeView::Other,
        }
    }
}

impl View for Tag {
    type V = TagView;

    open spec fn view(&self) -> TagView {
        TagView { name: self.name@, shape: self.shape@ }
    }
}

/// The models of a sequence of arguments.
pub open spec fn args_view(args: Seq<NestedArg>) -> Seq<NestedArgView> {
    args.map_values(|a: NestedArg| a@)
}

/// The models of a sequence of tags.
pub open spec fn tags_view(tags: Seq<Tag>) -> Seq<TagView> {
    tags.map_values(|t: Tag| t@)
}

impl Clone for NestedArg {
    fn clone(&self) -> (r: Self)
        ensures
            r@ == self@,
    {
        match self {
            NestedArg::Path(p) => NestedArg::Path(p.clone()),
            NestedArg::NameValue(n, v) => NestedArg::NameValue(n.clone(), *v),
            NestedArg::Other => NestedArg::Other,
        }
    }
}

impl Clone for TagShape {
    fn clone(&self) -> (r: Self)
        ensures
            r@ == self@,
    {
        match self {
            TagShape::Bare => TagShape::Bare,
            TagShape::List(args) => {
                let copy = args.clone();
                assert(args_view(copy@) =~= args_view(args@));
                TagShape::List(copy)
            },
            TagShape::Other => TagShape::Other,
        }
    }
}

impl Clone for Tag {
    fn clone(&self) -> (r: Self)
        ensures
            r@ == self@,
    {
        Tag { name: self.name.clone(), shape: self.shape.clone() }
    }
}

} // verus!
