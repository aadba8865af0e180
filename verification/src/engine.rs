use vstd::prelude::*;

use crate::Error;
use crate::RootSchema;
use crate::YamlSchema;
use crate::node::{load_yaml_documents, yaml_parse_of, Node};
use crate::schemas::yaml_schema_wf;
use crate::semantics::{accepts, out, Outcome};
use crate::validation::{errs_view, path_of, render_err, validate_post, Context, ErrView};

verus! {

/// What the engine leaves in the context for one parsed document list:
/// an empty document list passes only the empty and `true` schemas; a
/// non-empty list has its first document validated.
pub open spec fn evaluate_errors(schema: YamlSchema, docs: Seq<Node>, fail_fast: bool) -> Seq<
    ErrView,
> {
    if docs.len() == 0 {
        match schema {
            YamlSchema::Empty => Seq::empty(),
            YamlSchema::BooleanLiteral(b) => if b {
                Seq::empty()
            } else {
                seq![
                    ErrView {
                        path: Seq::empty(),
                        loc: None,
                        msg: "Empty YAML document is not allowed"@,
                    },
                ]
            },
            _ => seq![
                ErrView {
                    path: Seq::empty(),
                    loc: None,
                    msg: "Empty YAML document is not allowed"@,
                },
            ],
        }
    } else {
        let o = out(schema, docs[0]);
        if !fail_fast {
            o.errors.map_values(|e: crate::semantics::ErrItem| render_err(Seq::empty(), e))
        } else {
            if o.errors.len() == 0 {
                Seq::empty()
            } else {
                seq![render_err(Seq::empty(), o.errors[0])]
            }
        }
    }
}

impl RootSchema {
    /// Loads a schema document from YAML text: a text without documents is
    /// the empty schema; otherwise the first parsed document is loaded as
    /// the model of loading says.
    pub fn load_from_str(schema: &str) -> (r: Result<RootSchema, Error>)
        ensures
            ({
                let parsed = crate::node::yaml_parse_of(schema@);
                match parsed {
                    Err(m) => r matches Err(e) && (e matches Error::YamlParsingError(mm) && mm@
                        == m@),
                    Ok(docs) => if docs@.len() == 0 {
                        r matches Ok(root) && crate::loading::meta_none(root)
                            && *root.schema is Empty
                    } else {
                        &&& (r is Ok <==> crate::loading::doc_fail(docs@[0]) is None)
                        &&& (r matches Ok(root) ==> crate::loading::doc_loads_to(
                            docs@[0],
                            root,
                        ))
                        &&& (r matches Err(e) ==> crate::loading::doc_fail(docs@[0])
                            matches Some(f) && crate::loading::fail_matches(e, f))
                    },
                }
            }),
            r matches Ok(root) ==> yaml_schema_wf(*root.schema),
    {
        match crate::node::load_yaml_documents(schema) {
            Ok(docs) => {
                if docs.len() == 0 {
                    Ok(RootSchema::new(YamlSchema::Empty))
                } else {
                    crate::loader::load_from_doc(&docs[0])
                }
            },
            Err(m) => Err(Error::YamlParsingError(m)),
        }
    }

    /// Validates a document node against the root schema.
    pub fn validate(&self, context: &mut Context, value: &Node) -> (r: Result<(), Error>)
        requires
            yaml_schema_wf(*self.schema),
        ensures
            validate_post(out(*self.schema, *value), *old(context), *final(context), r),
    {
        self.schema.validate(context, value)
    }
}

/// The top-level entry: it parses the input, drives the validation and
/// returns the context with the accumulated errors.
pub struct Engine<'a> {
    pub root_schema: &'a RootSchema,
}

impl<'a> Engine<'a> {
    /// An engine around a loaded schema.
    pub fn new(root_schema: &'a RootSchema) -> (r: Engine<'a>)
        ensures
            r.root_schema == root_schema,
    {
        Engine { root_schema }
    }

    /// Parses `value` and validates its first document against the schema,
    /// returning the context with the errors in document order; with
    /// `fail_fast` only the first error is recorded. A validation that
    /// stops on an internal type confusion returns that error instead.
    pub fn evaluate(root_schema: &RootSchema, value: &str, fail_fast: bool) -> (r: Result<
        Context,
        Error,
    >)
        requires
            yaml_schema_wf(*root_schema.schema),
        ensures
            ({
                let parsed = yaml_parse_of(value@);
                &&& (r is Err <==> (parsed is Err || (parsed matches Ok(docs) && docs@.len() > 0
                    && out(*root_schema.schema, docs@[0]).abort is Some && (!fail_fast || out(
                    *root_schema.schema,
                    docs@[0],
                ).errors.len() == 0))))
                &&& match r {
                    Ok(c) => {
                        &&& c.fail_fast == fail_fast
                        &&& parsed matches Ok(docs)
                        &&& errs_view(c.errors@) == evaluate_errors(
                            *root_schema.schema,
                            docs@,
                            fail_fast,
                        )
                    },
                    Err(e) => {
                        match parsed {
                            Err(m) => e matches Error::YamlParsingError(mm) && mm@ == m@,
                            Ok(docs) => {
                                &&& docs@.len() > 0
                                &&& out(*root_schema.schema, docs@[0]).abort is Some
                                &&& e matches Error::GenericError(s) && s@ == out(
                                    *root_schema.schema,
                                    docs@[0],
                                ).abort.unwrap()
                            },
                        }
                    },
                }
            }),
    {
        let docs = match load_yaml_documents(value) {
            Ok(d) => d,
            Err(m) => {
                return Err(Error::YamlParsingError(m));
            },
        };
        let mut context = Context::new(fail_fast);
        if docs.len() == 0 {
            let schema_ref: &YamlSchema = &root_schema.schema;
            let empty_ok = match schema_ref {
                YamlSchema::Empty => true,
                YamlSchema::BooleanLiteral(b) => *b,
                _ => false,
            };
            if !empty_ok {
                context.add_doc_error(
                    String::from_str("Empty YAML document is not allowed"),
                );
            }
            proof {
                assert(errs_view(context.errors@) =~= evaluate_errors(
                    *root_schema.schema,
                    yaml_parse_of(value@).unwrap()@,
                    fail_fast,
                ));
            }
            Ok(context)
        } else {
            let res = root_schema.schema.validate(&mut context, &docs[0]);
            match res {
                Ok(()) => {
                    proof {
                        assert(errs_view(context.errors@) =~= evaluate_errors(
                            *root_schema.schema,
                            yaml_parse_of(value@).unwrap()@,
                            fail_fast,
                        ));
                    }
                    Ok(context)
                },
                Err(e) => {
                    match e {
                        Error::FailFast => {
                            proof {
                                assert(errs_view(context.errors@) =~= evaluate_errors(
                                    *root_schema.schema,
                                    yaml_parse_of(value@).unwrap()@,
                                    fail_fast,
                                ));
                            }
                            Ok(context)
                        },
                        e2 => Err(e2),
                    }
                },
            }
        }
    }
}

} // verus!
