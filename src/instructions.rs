use vstd::prelude::*;
use vstd::string::StringExecFns;

use crate::tags::{args_view, tags_view, NestedArg, NestedArgView, Tag, TagShape, TagShapeView, TagView};

verus! {

/// The instructions that a record can ask to have generated for it.
#[derive(Clone, Copy, Debug, PartialEq, Eq)]
pub enum DefaultInstructions {
    Create,
    Delete,
    Update,
}

/// A generation directive bound to the name of the record it was asked for.
#[derive(Debug, PartialEq, Eq)]
pub enum DefaultInstruction {
    Create(String),
    Delete(String),
    Update(String),
}

impl View for DefaultInstruction {
    type V = (DefaultInstructions, Seq<char>);

    open spec fn view(&self) -> (DefaultInstructions, Seq<char>) {
        match self {
            DefaultInstruction::Create(s) => (DefaultInstructions::Create, s@),
            DefaultInstruction::Delete(s) => (DefaultInstructions::Delete, s@),
            DefaultInstruction::Update(s) => (DefaultInstructions::Update, s@),
        }
    }
}

impl DefaultInstruction {
    /// Which instruction this is, without the record it is bound to.
    pub fn kind(&self) -> (r: DefaultInstructions)
        ensures
            r == self@.0,
    {
        match self {
            DefaultInstruction::Create(_) => DefaultInstructions::Create,
            DefaultInstruction::Delete(_) => DefaultInstructions::Delete,
            DefaultInstruction::Update(_) => DefaultInstructions::Update,
        }
    }
}

impl Clone for DefaultInstruction {
    fn clone(&self) -> (r: Self)
        ensures
            r@ == self@,
    {
        match self {
            DefaultInstruction::Create(s) => DefaultInstruction::Create(s.clone()),
            DefaultInstruction::Delete(s) => DefaultInstruction::Delete(s.clone()),
            DefaultInstruction::Update(s) => DefaultInstruction::Update(s.clone()),
        }
    }
}

/// A fatal problem in a record's tags: extraction stops and yields no configuration.
#[derive(Debug, PartialEq, Eq)]
pub enum ConfigError {
    /// `default_instructions` holds an entry that is not a bare path.
    InvalidFormat,
    /// `default_instructions` names something other than `Create`, `Delete` or `Update`.
    UnknownInstruction(String),
}

/// Mathematical model of a [`ConfigError`].
pub enum ConfigErrorView {
    InvalidFormat,
    UnknownInstruction(Seq<char>),
}

impl View for ConfigError {
    type V = ConfigErrorView;

    open spec fn view(&self) -> ConfigErrorView {
        match self {
            ConfigError::InvalidFormat => ConfigErrorView::InvalidFormat,
            ConfigError::UnknownInstruction(s) => ConfigErrorView::UnknownInstruction(s@),
        }
    }
}

/// The text that reports an error to the author of the record.
pub open spec fn error_message(e: ConfigErrorView) -> Seq<char> {
    match e {
        ConfigErrorView::InvalidFormat => "invalid format for `default_instructions`"@,
        ConfigErrorView::UnknownInstruction(name) => "unknown default instruction: `"@ + name
            + "`"@,
    }
}

impl ConfigError {
    /// The text that reports this error, naming the offending instruction where there is one.
    pub fn message(&self) -> (r: String)
        ensures
            r@ == error_message(self@),
    {
        match self {
            ConfigError::InvalidFormat => String::from_str("invalid format for `default_instructions`"),
            ConfigError::UnknownInstruction(name) => {
                let r = String::from_str("unknown default instruction: `");
                let r = r.concat(name.as_str());
                r.concat("`")
            },
        }
    }
}

/// The instruction kind that a path names, if it names one.
pub open spec fn instruction_kind(name: Seq<char>) -> Option<DefaultInstructions> {
    if name == "Create"@ {
        Some(DefaultInstructions::Create)
    } else if name == "Delete"@ {
        Some(DefaultInstructions::Delete)
    } else if name == "Update"@ {
        Some(DefaultInstructions::Update)
    } else {
        None
    }
}

/// The directives that the arguments of one `default_instructions` tag ask for,
/// in order, each bound to `record`; or the first error among them.
pub open spec fn instructions_of_args(record: Seq<char>, args: Seq<NestedArgView>) -> Result<
    Seq<(DefaultInstructions, Seq<char>)>,
    ConfigErrorView,
>
    decreases args.len(),
{
    if args.len() == 0 {
        Ok(Seq::empty())
    } else {
        match instructions_of_args(record, args.drop_last()) {
            Err(e) => Err(e),
            Ok(prev) => match args.last() {
                NestedArgView::Path(p) => match instruction_kind(p) {
                    Some(k) => Ok(prev.push((k, record))),
                    None => Err(ConfigErrorView::UnknownInstruction(p)),
                },
                _ => Err(ConfigErrorView::InvalidFormat),
            },
        }
    }
}

/// The directives that a record's tags ask for, in order, each bound to `record`;
/// or the first error among them. Only `default_instructions(...)` tags count.
pub open spec fn instructions_of_tags(record: Seq<char>, tags: Seq<TagView>) -> Result<
    Seq<(DefaultInstructions, Seq<char>)>,
    ConfigErrorView,
>
    decreases tags.len(),
{
    if tags.len() == 0 {
        Ok(Seq::empty())
    } else {
        match instructions_of_tags(record, tags.drop_last()) {
            Err(e) => Err(e),
            Ok(prev) => {
                let t = tags.last();
                match t.shape {
                    TagShapeView::List(args) if t.name == "default_instructions"@ => match instructions_of_args(record, args) {
                        Err(e) => Err(e),
                        Ok(more) => Ok(prev + more),
                    },
                    _ => Ok(prev),
                }
            },
        }
    }
}

/// The model of a list of directives.
pub open spec fn instructions_view(v: Seq<DefaultInstruction>) -> Seq<(DefaultInstructions, Seq<char>)> {
    v.map_values(|d: DefaultInstruction| d@)
}

/// The model of the outcome of reading a record's tags.
pub open spec fn instructions_result_view(r: Result<Vec<DefaultInstruction>, ConfigError>) -> Result<
    Seq<(DefaultInstructions, Seq<char>)>,
    ConfigErrorView,
> {
    match r {
        Ok(v) => Ok(instructions_view(v@)),
        Err(e) => Err(e@),
    }
}

/// Appends to `out` the directives that one tag's arguments ask for.
fn push_instructions(struct_name: &str, args: &Vec<NestedArg>, out: &mut Vec<DefaultInstruction>) -> (r: Result<(), ConfigError>)
    ensures
        match instructions_of_args(struct_name@, args_view(args@)) {
            Ok(more) => r is Ok && instructions_view(final(out)@) == instructions_view(old(out)@) + more,
            Err(e) => r matches Err(x) && x@ == e,
        },
{
    let create = String::from_str("Create");
    let delete = String::from_str("Delete");
    let update = String::from_str("Update");
    let ghost start = instructions_view(old(out)@);
    let mut i: usize = 0;
    while i < args.len()
        invariant
            i <= args.len(),
            create@ == "Create"@,
            delete@ == "Delete"@,
            update@ == "Update"@,
            instructions_of_args(struct_name@, args_view(args@.take(i as int))) matches Ok(done)
                && instructions_view(out@) == start + done,
        decreases args.len() - i,
    {
        let ghost prefix = args_view(args@.take(i as int));
        let ghost next = args_view(args@.take(i + 1));
        assert(next.drop_last() =~= prefix);
        assert(next =~= args_view(args@).take(i + 1));
        assert(next.last() == args@[i as int]@);
        let ghost before = out@;
        match &args[i] {
            NestedArg::Path(p) => {
                if *p == create {
                    out.push(DefaultInstruction::Create(String::from_str(struct_name)));
                } else if *p == delete {
                    out.push(DefaultInstruction::Delete(String::from_str(struct_name)));
                } else if *p == update {
                    out.push(DefaultInstruction::Update(String::from_str(struct_name)));
                } else {
                    proof {
                        assert(instruction_kind(p@) is None);
                        assert(instructions_of_args(struct_name@, next) == Err::<
                            Seq<(DefaultInstructions, Seq<char>)>,
                            ConfigErrorView,
                        >(ConfigErrorView::UnknownInstruction(p@)));
                        lemma_args_error_persists(struct_name@, args_view(args@), i as int + 1);
                    }
                    return Err(ConfigError::UnknownInstruction(p.clone()));
                }
                assert(instructions_view(out@) =~= instructions_view(before).push(out@.last()@));
            },
            _ => {
                proof {
                    assert(instructions_of_args(struct_name@, next) == Err::<
                        Seq<(DefaultInstructions, Seq<char>)>,
                        ConfigErrorView,
                    >(ConfigErrorView::InvalidFormat));
                    lemma_args_error_persists(struct_name@, args_view(args@), i as int + 1);
                }
                return Err(ConfigError::InvalidFormat);
            },
        }
        i = i + 1;
    }
    assert(args@.take(args.len() as int) =~= args@);
    Ok(())
}

/// An error among the first `n` arguments is the error of the whole list.
proof fn lemma_args_error_persists(record: Seq<char>, args: Seq<NestedArgView>, n: int)
    requires
        0 <= n <= args.len(),
        instructions_of_args(record, args.take(n)) is Err,
    ensures
        instructions_of_args(record, args) == instructions_of_args(record, args.take(n)),
    decreases args.len() - n,
{
    if n < args.len() {
        assert(args.take(n + 1).drop_last() =~= args.take(n));
        lemma_args_error_persists(record, args, n + 1);
    } else {
        assert(args.take(n) =~= args);
    }
}

/// An error among the first `n` tags is the error of the whole list.
proof fn lemma_tags_error_persists(record: Seq<char>, tags: Seq<TagView>, n: int)
    requires
        0 <= n <= tags.len(),
        instructions_of_tags(record, tags.take(n)) is Err,
    ensures
        instructions_of_tags(record, tags) == instructions_of_tags(record, tags.take(n)),
    decreases tags.len() - n,
{
    if n < tags.len() {
        assert(tags.take(n + 1).drop_last() =~= tags.take(n));
        lemma_tags_error_persists(record, tags, n + 1);
    } else {
        assert(tags.take(n) =~= tags);
    }
}

/// Reads the `default_instructions` tags of a record named `struct_name` into
/// directives bound to that name, in the order written.
///
/// Fails on the first entry that is not a bare path, or that names no known
/// instruction. Tags of other names or shapes are ignored.
pub fn parse_top_level_attributes(struct_name: &str, attrs: &Vec<Tag>) -> (r: Result<
    Vec<DefaultInstruction>,
    ConfigError,
>)
    ensures
        instructions_result_view(r) == instructions_of_tags(struct_name@, tags_view(attrs@)),
{
    let key = String::from_str("default_instructions");
    let mut out: Vec<DefaultInstruction> = Vec::new();
    let mut i: usize = 0;
    while i < attrs.len()
        invariant
            i <= attrs.len(),
            key@ == "default_instructions"@,
            instructions_of_tags(struct_name@, tags_view(attrs@.take(i as int))) matches Ok(done)
                && instructions_view(out@) == done,
        decreases attrs.len() - i,
    {
        let ghost prefix = tags_view(attrs@.take(i as int));
        let ghost next = tags_view(attrs@.take(i + 1));
        assert(next.drop_last() =~= prefix);
        assert(next =~= tags_view(attrs@).take(i + 1));
        assert(next.last() == attrs@[i as int]@);
        let tag = &attrs[i];
        if tag.name == key {
            if let TagShape::List(args) = &tag.shape {
                match push_instructions(struct_name, args, &mut out) {
                    Ok(()) => {},
                    Err(e) => {
                        proof {
                            assert(tag@.shape == TagShapeView::List(args_view(args@)));
                            assert(instructions_of_tags(struct_name@, next) == Err::<
                                Seq<(DefaultInstructions, Seq<char>)>,
                                ConfigErrorView,
                            >(e@));
                            lemma_tags_error_persists(struct_name@, tags_view(attrs@), i as int + 1);
                        }
                        return Err(e);
                    },
                }
            }
        }
        i = i + 1;
    }
    assert(attrs@.take(attrs.len() as int) =~= attrs@);
    Ok(out)
}

} // verus!
