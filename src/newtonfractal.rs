use vstd::prelude::*;

use crate::fractal_shader::{lemma_uniform_count, shader_source, ShaderSource};
use crate::uniforms::uniforms_view;

verus! {

/// Why a fractal model could not be built.
#[derive(Clone, Debug, PartialEq, Eq)]
pub enum FractalError<E> {
    /// The root list and the colour list differ in length.
    RootColorMismatch,
    /// The graphics runtime refused the synthesized program.
    Shader(E),
}

/// `compile` failed with `e` on the program source for `n` roots.
pub open spec fn refused<P, E, F: FnOnce(&ShaderSource) -> Result<P, E>>(
    compile: F,
    n: nat,
    e: E,
) -> bool {
    exists|s: ShaderSource| s.is_source_for(n) && compile.ensures((&s,), Err::<P, E>(e))
}

/// The state of a Newton fractal: its roots, one colour per root, the
/// iteration cap, the view window, and the program for the current number of
/// roots together with the source it was made from.
///
/// `V` is a point of the complex plane (a root, or a view interval as its two
/// ends), `C` a colour, `P` the handle of a program made by the graphics
/// runtime. The model synthesizes the source for each new root count and
/// hands it to a `compile` function of the caller, which asks the runtime for
/// the program.
pub struct NewtonFractal<V, C, P> {
    max_iterations: u32,
    roots: Vec<V>,
    colors: Vec<C>,
    source: ShaderSource,
    material: P,
    real_range: V,
    imag_range: V,
}

impl<V, C, P> NewtonFractal<V, C, P> {
    /// The roots, in index order.
    pub closed spec fn roots(&self) -> Seq<V> {
        self.roots@
    }

    /// The colours; the colour of root `i` is at `i`.
    pub closed spec fn colors(&self) -> Seq<C> {
        self.colors@
    }

    /// The iteration cap.
    pub closed spec fn max_iterations(&self) -> u32 {
        self.max_iterations
    }

    /// The real-axis interval of the view.
    pub closed spec fn real_range(&self) -> V {
        self.real_range
    }

    /// The imaginary-axis interval of the view.
    pub closed spec fn imag_range(&self) -> V {
        self.imag_range
    }

    /// The source the active program was made from.
    pub closed spec fn source(&self) -> ShaderSource {
        self.source
    }

    /// The active program.
    pub closed spec fn material(&self) -> P {
        self.material
    }

    /// Every root has exactly one colour, there is at least one root, and the
    /// active program was made from the source for the current root count.
    pub open spec fn wf(&self) -> bool {
        &&& self.roots().len() == self.colors().len()
        &&& self.roots().len() >= 1
        &&& self.source().is_source_for(self.roots().len())
    }

    /// Builds the model from its roots and their colours. `compile` is asked
    /// for the program from the source for `roots.len()` roots, once the two
    /// lists are known to pair up.
    pub fn new<E, F: FnOnce(&ShaderSource) -> Result<P, E>>(
        roots: Vec<V>,
        colors: Vec<C>,
        max_iterations: u32,
        real_range: V,
        imag_range: V,
        compile: F,
    ) -> (r: Result<Self, FractalError<E>>)
        requires
            roots@.len() == colors@.len() ==> roots@.len() >= 1,
            forall|s: &ShaderSource| compile.requires((s,)),
        ensures
            roots@.len() != colors@.len() <==> r == Err::<Self, FractalError<E>>(
                FractalError::RootColorMismatch,
            ),
            r matches Err(FractalError::Shader(e)) ==> refused(compile, roots@.len(), e),
            r matches Ok(m) ==> {
                &&& m.wf()
                &&& m.roots() == roots@
                &&& m.colors() == colors@
                &&& m.max_iterations() == max_iterations
                &&& m.real_range() == real_range
                &&& m.imag_range() == imag_range
                &&& compile.ensures((&m.source(),), Ok::<P, E>(m.material()))
            },
    {
        if roots.len() != colors.len() {
            return Err(FractalError::RootColorMismatch);
        }
        let source = shader_source(roots.len());
        match compile(&source) {
            Err(e) => Err(FractalError::Shader(e)),
            Ok(material) => Ok(
                NewtonFractal {
                    max_iterations,
                    roots,
                    colors,
                    source,
                    material,
                    real_range,
                    imag_range,
                },
            ),
        }
    }

    /// The active program.
    pub fn get_material(&self) -> (r: &P)
        ensures
            *r == self.material(),
    {
        &self.material
    }

    /// The source the active program was made from.
    pub fn get_source(&self) -> (r: &ShaderSource)
        ensures
            *r == self.source(),
    {
        &self.source
    }

    /// Adds a root with its colour. `compile` is asked for the program from
    /// the source for one root more; when it fails, the model keeps its roots
    /// and its program and hands the error back.
    pub fn add_root<E, F: FnOnce(&ShaderSource) -> Result<P, E>>(
        &mut self,
        root: V,
        color: C,
        compile: F,
    ) -> (r: Result<(), E>)
        requires
            old(self).wf(),
            old(self).roots().len() < usize::MAX,
            forall|s: &ShaderSource| compile.requires((s,)),
        ensures
            final(self).wf(),
            r is Ok ==> {
                &&& final(self).roots() == old(self).roots().push(root)
                &&& final(self).colors() == old(self).colors().push(color)
                &&& compile.ensures((&final(self).source(),), Ok::<P, E>(final(self).material()))
                &&& final(self).max_iterations() == old(self).max_iterations()
                &&& final(self).real_range() == old(self).real_range()
                &&& final(self).imag_range() == old(self).imag_range()
            },
            r is Err ==> *final(self) == *old(self),
            r matches Err(e) ==> refused(compile, old(self).roots().len() + 1, e),
    {
        let source = shader_source(self.roots.len() + 1);
        match compile(&source) {
            Err(e) => Err(e),
            Ok(material) => {
                self.source = source;
                self.material = material;
                self.roots.push(root);
                self.colors.push(color);
                Ok(())
            },
        }
    }

    /// Removes root `index` and its colour. `compile` is asked for the
    /// program from the source for one root fewer; when it fails, the model
    /// keeps its roots and its program and hands the error back.
    pub fn remove_root<E, F: FnOnce(&ShaderSource) -> Result<P, E>>(
        &mut self,
        index: usize,
        compile: F,
    ) -> (r: Result<(), E>)
        requires
            old(self).wf(),
            old(self).roots().len() >= 2,
            index < old(self).roots().len(),
            forall|s: &ShaderSource| compile.requires((s,)),
        ensures
            final(self).wf(),
            r is Ok ==> {
                &&& final(self).roots() == old(self).roots().remove(index as int)
                &&& final(self).colors() == old(self).colors().remove(index as int)
                &&& compile.ensures((&final(self).source(),), Ok::<P, E>(final(self).material()))
                &&& final(self).max_iterations() == old(self).max_iterations()
                &&& final(self).real_range() == old(self).real_range()
                &&& final(self).imag_range() == old(self).imag_range()
            },
            r is Err ==> *final(self) == *old(self),
            r matches Err(e) ==> refused(compile, (old(self).roots().len() - 1) as nat, e),
    {
        let source = shader_source(self.roots.len() - 1);
        match compile(&source) {
            Err(e) => Err(e),
            Ok(material) => {
                self.source = source;
                self.material = material;
                self.roots.remove(index);
                self.colors.remove(index);
                Ok(())
            },
        }
    }

    /// Sets the iteration cap.
    pub fn set_max_iterations(&mut self, max_iterations: u32)
        ensures
            final(self).max_iterations() == max_iterations,
            final(self).roots() == old(self).roots(),
            final(self).colors() == old(self).colors(),
            final(self).material() == old(self).material(),
            final(self).source() == old(self).source(),
            final(self).real_range() == old(self).real_range(),
            final(self).imag_range() == old(self).imag_range(),
    {
        self.max_iterations = max_iterations;
    }

    /// The iteration cap.
    pub fn get_max_iterations(&self) -> (r: u32)
        ensures
            r == self.max_iterations(),
    {
        self.max_iterations
    }

    /// The roots, for reading and in-place editing.
    pub fn get_roots(&mut self) -> (r: &mut [V])
        ensures
            r@ == old(self).roots(),
            final(self).roots() == final(r)@,
            final(self).colors() == old(self).colors(),
            final(self).material() == old(self).material(),
            final(self).source() == old(self).source(),
            final(self).max_iterations() == old(self).max_iterations(),
            final(self).real_range() == old(self).real_range(),
            final(self).imag_range() == old(self).imag_range(),
    {
        self.roots.as_mut_slice()
    }

    /// The colours, for reading and in-place editing.
    pub fn get_colors(&mut self) -> (r: &mut [C])
        ensures
            r@ == old(self).colors(),
            final(self).colors() == final(r)@,
            final(self).roots() == old(self).roots(),
            final(self).material() == old(self).material(),
            final(self).source() == old(self).source(),
            final(self).max_iterations() == old(self).max_iterations(),
            final(self).real_range() == old(self).real_range(),
            final(self).imag_range() == old(self).imag_range(),
    {
        self.colors.as_mut_slice()
    }

    /// The real-axis interval, for in-place editing.
    pub fn get_real_range_mut(&mut self) -> (r: &mut V)
        ensures
            *r == old(self).real_range(),
            final(self).real_range() == *final(r),
            final(self).roots() == old(self).roots(),
            final(self).colors() == old(self).colors(),
            final(self).material() == old(self).material(),
            final(self).source() == old(self).source(),
            final(self).max_iterations() == old(self).max_iterations(),
            final(self).imag_range() == old(self).imag_range(),
    {
        &mut self.real_range
    }

    /// The imaginary-axis interval, for in-place editing.
    pub fn get_imag_range_mut(&mut self) -> (r: &mut V)
        ensures
            *r == old(self).imag_range(),
            final(self).imag_range() == *final(r),
            final(self).roots() == old(self).roots(),
            final(self).colors() == old(self).colors(),
            final(self).material() == old(self).material(),
            final(self).source() == old(self).source(),
            final(self).max_iterations() == old(self).max_iterations(),
            final(self).real_range() == old(self).real_range(),
    {
        &mut self.imag_range
    }

    /// The number of roots.
    pub fn len(&self) -> (r: usize)
        ensures
            r == self.roots().len(),
    {
        self.roots.len()
    }

    /// Whether there is no root.
    pub fn is_empty(&self) -> (r: bool)
        ensures
            r == (self.roots().len() == 0),
    {
        self.roots.is_empty()
    }
}

impl<V: Copy, C, P> NewtonFractal<V, C, P> {
    /// The real-axis interval of the view.
    pub fn get_real_range(&self) -> (r: V)
        ensures
            r == self.real_range(),
    {
        self.real_range
    }

    /// The imaginary-axis interval of the view.
    pub fn get_imag_range(&self) -> (r: V)
        ensures
            r == self.imag_range(),
    {
        self.imag_range
    }
}

/// In every reachable state of the model, and so after each root is added
/// or removed, every root has one colour and the active program binds three
/// uniforms per root besides the three fixed ones.
pub proof fn lemma_schema_follows_roots<V, C, P>(m: NewtonFractal<V, C, P>)
    requires
        m.wf(),
    ensures
        m.colors().len() == m.roots().len(),
        uniforms_view(m.source().uniforms@).len() == 3 + 3 * m.roots().len(),
        m.source().uniforms@.len() == 3 + 3 * m.colors().len(),
{
    lemma_uniform_count(m.roots().len());
}

} // verus!
