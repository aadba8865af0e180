use vstd::prelude::*;

use crate::error::Error;
use crate::node::Node;
use crate::semantics::{col_shown, ErrItem, Outcome};

verus! {

/// The line and column of the document value that caused an error,
/// 1-indexed as displayed.
#[derive(Debug, Clone, Copy, PartialEq, Eq, Structural)]
pub struct LineCol {
    pub line: usize,
    pub col: usize,
}

/// A validation error: the path to the value that caused the error, its
/// location when one is known, and the error message.
#[derive(Debug)]
pub struct ValidationError {
    pub path: String,
    pub line_col: Option<LineCol>,
    pub error: String,
}

/// The mathematical content of a recorded validation error.
pub struct ErrView {
    pub path: Seq<char>,
    pub loc: Option<(usize, usize)>,
    pub msg: Seq<char>,
}

impl View for ValidationError {
    type V = ErrView;

    open spec fn view(&self) -> ErrView {
        ErrView {
            path: self.path@,
            loc: match self.line_col {
                Some(lc) => Some((lc.line, lc.col)),
                None => None,
            },
            msg: self.error@,
        }
    }
}

/// The views of a recorded error list.
pub open spec fn errs_view(es: Seq<ValidationError>) -> Seq<ErrView> {
    es.map_values(|e: ValidationError| e@)
}

/// Path segments joined with dots; the empty path renders as the empty
/// string.
pub open spec fn join_dotted(segs: Seq<Seq<char>>) -> Seq<char>
    decreases segs.len(),
{
    if segs.len() == 0 {
        Seq::empty()
    } else if segs.len() == 1 {
        segs[0]
    } else {
        segs[0] + "."@ + join_dotted(segs.skip(1))
    }
}

pub proof fn lemma_join_dotted_snoc(segs: Seq<Seq<char>>, last: Seq<char>)
    ensures
        join_dotted(segs.push(last)) == if segs.len() == 0 {
            last
        } else {
            join_dotted(segs) + "."@ + last
        },
    decreases segs.len(),
{
    let whole = segs.push(last);
    if segs.len() == 0 {
        assert(join_dotted(whole) == whole[0]);
    } else if segs.len() == 1 {
        assert(whole[0] == segs[0]);
        assert(whole.skip(1) =~= seq![last]);
        assert(join_dotted(whole) == whole[0] + "."@ + join_dotted(whole.skip(1)));
        assert(join_dotted(whole.skip(1)) == whole.skip(1)[0]);
        assert(join_dotted(whole) =~= join_dotted(segs) + "."@ + last);
    } else {
        assert(whole[0] == segs[0]);
        assert(whole.skip(1) =~= segs.skip(1).push(last));
        lemma_join_dotted_snoc(segs.skip(1), last);
        assert(join_dotted(whole) =~= join_dotted(segs) + "."@ + last);
    }
}

/// A model error rendered at a path prefix: the error that an executable
/// context records for it.
pub open spec fn render_err(prefix: Seq<Seq<char>>, e: ErrItem) -> ErrView {
    ErrView { path: join_dotted(prefix + e.path), loc: e.loc, msg: e.msg }
}

/// The validation context: the current document path, the accumulated
/// errors, and the fail-fast flag. The error list only grows.
#[derive(Debug)]
pub struct Context {
    pub current_path: Vec<String>,
    pub errors: Vec<ValidationError>,
    pub fail_fast: bool,
}

/// The current path of a context, as path segments.
pub open spec fn path_of(c: Context) -> Seq<Seq<char>> {
    c.current_path@.map_values(|s: String| s@)
}

impl Context {
    /// A fresh context with an empty path and no errors.
    pub fn new(fail_fast: bool) -> (r: Context)
        ensures
            r.current_path@.len() == 0,
            r.errors@.len() == 0,
            r.fail_fast == fail_fast,
    {
        Context { current_path: Vec::new(), errors: Vec::new(), fail_fast }
    }

    /// Returns true if there are any errors in the context.
    pub fn has_errors(&self) -> (r: bool)
        ensures
            r == (self.errors@.len() > 0),
    {
        self.errors.len() > 0
    }

    /// Returns the current path as a string, the segments separated by
    /// dots.
    pub fn path(&self) -> (r: String)
        ensures
            r@ == join_dotted(path_of(*self)),
    {
        let ghost segs: Seq<Seq<char>> = path_of(*self);
        let mut out = String::new();
        let mut i: usize = 0;
        proof {
            assert(segs.take(0) =~= Seq::<Seq<char>>::empty());
        }
        while i < self.current_path.len()
            invariant
                segs == path_of(*self),
                i <= self.current_path@.len(),
                segs.len() == self.current_path@.len(),
                out@ == join_dotted(segs.take(i as int)),
            decreases self.current_path@.len() - i,
        {
            proof {
                reveal_strlit(".");
            }
            if i > 0 {
                out.append(".");
            }
            out.append(self.current_path[i].as_str());
            proof {
                lemma_join_dotted_snoc(segs.take(i as int), segs[i as int]);
                assert(segs.take(i + 1 as int) =~= segs.take(i as int).push(segs[i as int]));
                assert(out@ =~= join_dotted(segs.take(i + 1 as int)));
            }
            i = i + 1;
        }
        proof {
            assert(segs.take(segs.len() as int) =~= segs);
        }
        out
    }

    /// Pushes an already-built error.
    pub fn push_error(&mut self, e: ValidationError)
        ensures
            final(self).errors@ == old(self).errors@.push(e),
            final(self).current_path == old(self).current_path,
            final(self).fail_fast == old(self).fail_fast,
    {
        self.errors.push(e);
    }

    /// Records an error at the current path, located at `node`.
    pub fn add_error(&mut self, node: &Node, error: String)
        ensures
            errs_view(final(self).errors@) == errs_view(old(self).errors@).push(
                ErrView {
                    path: join_dotted(path_of(*old(self))),
                    loc: Some((node.line, col_shown(node.col))),
                    msg: error@,
                },
            ),
            final(self).current_path == old(self).current_path,
            final(self).fail_fast == old(self).fail_fast,
    {
        let path = self.path();
        let col = if node.col == usize::MAX {
            node.col
        } else {
            node.col + 1
        };
        let e = ValidationError {
            path,
            line_col: Some(LineCol { line: node.line, col }),
            error,
        };
        self.errors.push(e);
        proof {
            assert(errs_view(final(self).errors@) =~= errs_view(old(self).errors@).push(
                ErrView {
                    path: join_dotted(path_of(*old(self))),
                    loc: Some((node.line, col_shown(node.col))),
                    msg: error@,
                },
            ));
        }
    }

    /// Records an error at the current path with no location, for
    /// document-level failures.
    pub fn add_doc_error(&mut self, error: String)
        ensures
            errs_view(final(self).errors@) == errs_view(old(self).errors@).push(
                ErrView { path: join_dotted(path_of(*old(self))), loc: None, msg: error@ },
            ),
            final(self).current_path == old(self).current_path,
            final(self).fail_fast == old(self).fail_fast,
    {
        let path = self.path();
        let e = ValidationError { path, line_col: None, error };
        self.errors.push(e);
        proof {
            assert(errs_view(final(self).errors@) =~= errs_view(old(self).errors@).push(
                ErrView { path: join_dotted(path_of(*old(self))), loc: None, msg: error@ },
            ));
        }
    }

    /// Descends into a child of the current document value.
    pub fn push_path_segment(&mut self, seg: String)
        ensures
            path_of(*final(self)) == path_of(*old(self)).push(seg@),
            final(self).errors == old(self).errors,
            final(self).fail_fast == old(self).fail_fast,
    {
        self.current_path.push(seg);
        proof {
            assert(path_of(*final(self)) =~= path_of(*old(self)).push(seg@));
        }
    }

    /// Returns from a child of the current document value.
    pub fn pop_path_segment(&mut self)
        requires
            old(self).current_path@.len() > 0,
        ensures
            path_of(*final(self)) == path_of(*old(self)).drop_last(),
            final(self).errors == old(self).errors,
            final(self).fail_fast == old(self).fail_fast,
    {
        let _ = self.current_path.pop();
        proof {
            assert(path_of(*final(self)) =~= path_of(*old(self)).drop_last());
        }
    }
}

impl Context {
    /// Records an error and signals fail-fast when the context asks for
    /// it: the one way every validator reports a violation.
    pub fn report(&mut self, node: &Node, msg: String) -> (r: Result<(), Error>)
        ensures
            errs_view(final(self).errors@) == errs_view(old(self).errors@).push(
                ErrView {
                    path: join_dotted(path_of(*old(self))),
                    loc: Some((node.line, col_shown(node.col))),
                    msg: msg@,
                },
            ),
            final(self).current_path == old(self).current_path,
            final(self).fail_fast == old(self).fail_fast,
            if old(self).fail_fast {
                r matches Err(e) && e is FailFast
            } else {
                r is Ok
            },
    {
        self.add_error(node, msg);
        if self.fail_fast {
            Err(Error::FailFast)
        } else {
            Ok(())
        }
    }
}

/// Mapping the rendering over a concatenation renders each part.
pub proof fn lemma_render_concat(a: Seq<ErrItem>, b: Seq<ErrItem>, prefix: Seq<Seq<char>>)
    ensures
        (a + b).map_values(|e: ErrItem| render_err(prefix, e)) == a.map_values(
            |e: ErrItem| render_err(prefix, e),
        ) + b.map_values(|e: ErrItem| render_err(prefix, e)),
{
    assert((a + b).map_values(|e: ErrItem| render_err(prefix, e)) =~= a.map_values(
        |e: ErrItem| render_err(prefix, e),
    ) + b.map_values(|e: ErrItem| render_err(prefix, e)));
}

/// Rendering an error recorded at the current place puts it at the
/// current path.
pub proof fn lemma_render_at(prefix: Seq<Seq<char>>, v: Node, msg: Seq<char>)
    ensures
        render_err(prefix, crate::semantics::err_at(v, msg)) == (ErrView {
            path: join_dotted(prefix),
            loc: Some((v.line, col_shown(v.col))),
            msg,
        }),
{
    assert(prefix + Seq::<Seq<char>>::empty() =~= prefix);
}

/// Rendering errors that were shifted into a child segment is the same as
/// rendering them with the segment appended to the prefix.
pub proof fn lemma_render_shift(errors: Seq<ErrItem>, prefix: Seq<Seq<char>>, seg: Seq<char>)
    ensures
        errors.map_values(|e: ErrItem| crate::semantics::shift_err(e, seg)).map_values(
            |e: ErrItem| render_err(prefix, e),
        ) == errors.map_values(|e: ErrItem| render_err(prefix.push(seg), e)),
{
    let lhs = errors.map_values(|e: ErrItem| crate::semantics::shift_err(e, seg)).map_values(
        |e: ErrItem| render_err(prefix, e),
    );
    let rhs = errors.map_values(|e: ErrItem| render_err(prefix.push(seg), e));
    assert forall|k: int| 0 <= k < errors.len() implies lhs[k] == rhs[k] by {
        let e = errors[k];
        assert(prefix + (seq![seg] + e.path) =~= prefix.push(seg) + e.path);
    }
    assert(lhs =~= rhs);
}

/// The single-error version of the shift lemma.
pub proof fn lemma_render_shift_one(e: ErrItem, prefix: Seq<Seq<char>>, seg: Seq<char>)
    ensures
        render_err(prefix, crate::semantics::shift_err(e, seg)) == render_err(
            prefix.push(seg),
            e,
        ),
{
    assert(prefix + (seq![seg] + e.path) =~= prefix.push(seg) + e.path);
}

/// Rendering no errors yields no errors.
pub proof fn lemma_render_empty(prefix: Seq<Seq<char>>)
    ensures
        Seq::<ErrItem>::empty().map_values(|e: ErrItem| render_err(prefix, e)) == Seq::<
            ErrView,
        >::empty(),
{
    assert(Seq::<ErrItem>::empty().map_values(|e: ErrItem| render_err(prefix, e)) =~= Seq::<
        ErrView,
    >::empty());
}

/// With no errors collected, the rendered base is unchanged.
pub proof fn lemma_ff_base(pre_errs: Seq<ValidationError>, acc: Seq<ErrItem>, prefix: Seq<Seq<char>>)
    requires
        acc.len() == 0,
    ensures
        errs_view(pre_errs) + acc.map_values(|e: ErrItem| render_err(prefix, e)) == errs_view(
            pre_errs,
        ),
{
    assert(acc.map_values(|e: ErrItem| render_err(prefix, e)) =~= Seq::<ErrView>::empty());
    assert(errs_view(pre_errs) + acc.map_values(|e: ErrItem| render_err(prefix, e)) =~= errs_view(
        pre_errs,
    ));
}

/// Forgets the payload of a successful result.
pub open spec fn forget_ok<T>(r: Result<T, Error>) -> Result<(), Error> {
    match r {
        Ok(_) => Ok(()),
        Err(e) => Err(e),
    }
}

/// What one validator call does to its context, stated against the model
/// outcome `o`. Without fail-fast every model error is recorded and an
/// abort returns the generic error; with fail-fast the first error is
/// recorded and the fail-fast signal returned.
pub open spec fn validate_post(
    o: Outcome,
    pre: Context,
    post: Context,
    r: Result<(), Error>,
) -> bool {
    &&& post.fail_fast == pre.fail_fast
    &&& path_of(post) == path_of(pre)
    &&& if !pre.fail_fast {
        &&& errs_view(post.errors@) == errs_view(pre.errors@) + o.errors.map_values(
            |e: ErrItem| render_err(path_of(pre), e),
        )
        &&& match o.abort {
            None => r is Ok,
            Some(m) => r matches Err(e) && (e matches Error::GenericError(s) && s@ == m),
        }
    } else {
        if o.errors.len() > 0 {
            &&& errs_view(post.errors@) == errs_view(pre.errors@).push(
                render_err(path_of(pre), o.errors[0]),
            )
            &&& r matches Err(e) && e is FailFast
        } else {
            &&& errs_view(post.errors@) == errs_view(pre.errors@)
            &&& match o.abort {
                None => r is Ok,
                Some(m) => r matches Err(e) && (e matches Error::GenericError(s) && s@ == m),
            }
        }
    }
}

} // verus!
