//! What the bindings to other languages are built on: a table that can be
//! closed, and builders that are used once. A caller in another language
//! holds these by reference and cannot give them away, so each says at run
//! time whether it can still be used.

use vstd::prelude::*;
use vstd::string::StringExecFns;
use crate::error::{Error, ErrorView};
use crate::index::{
    parse_distance_type, spec_parse_distance_type, BTreeIndexBuilder, DistanceType,
    IndexBuilderView, IvfPqIndexBuilder, IvfPqIndexBuilderView, DEFAULT_MAX_ITERATIONS,
    DEFAULT_SAMPLE_RATE,
};
use crate::table::{parse_add_mode, spec_parse_add_mode, AddDataBuilder, AddDataMode};

verus! {

/// A builder that can be used once: the first use takes it, and every use
/// after that is refused, by the name that the builder is known under.
#[derive(Debug)]
pub struct BuilderWrapper<T> {
    pub name: String,
    pub inner: Option<T>,
}

/// The failure of using the builder `name` a second time.
pub open spec fn builder_consumed(name: Seq<char>) -> ErrorView {
    ErrorView::InvalidInput { message: "Builder "@ + name + " has already been consumed"@ }
}

impl<T> BuilderWrapper<T> {
    /// A wrapper of the builder `inner`, which is known as `name`.
    pub fn new(name: &str, inner: T) -> (w: Self)
        ensures
            w.name@ == name@,
            w.inner == Some(inner),
    {
        BuilderWrapper { name: String::from_str(name), inner: Some(inner) }
    }

    /// Takes the builder out. Fails where it was taken before.
    pub fn consume(&mut self) -> (r: Result<T, Error>)
        ensures
            final(self).inner is None,
            final(self).name == old(self).name,
            match r {
                Ok(inner) => old(self).inner == Some(inner),
                Err(e) => old(self).inner is None && e@ == builder_consumed(old(self).name@),
            },
    {
        match self.inner.take() {
            Some(inner) => Ok(inner),
            None => Err(
                Error::InvalidInput {
                    message: String::from_str("Builder ").concat(self.name.as_str()).concat(
                        " has already been consumed",
                    ),
                },
            ),
        }
    }
}

/// A builder of some kind of index, which can be used once.
#[derive(Debug)]
pub struct IndexBuilder {
    pub inner: BuilderWrapper<crate::index::IndexBuilder>,
}

/// A builder of some kind of scalar index, which can be used once.
#[derive(Debug)]
pub struct ScalarIndexBuilder {
    pub inner: BuilderWrapper<crate::index::ScalarIndexBuilder>,
}

/// A builder of some kind of vector index, which can be used once.
#[derive(Debug)]
pub struct VectorIndexBuilder {
    pub inner: BuilderWrapper<crate::index::VectorIndexBuilder>,
}

impl IndexBuilder {
    /// A builder that can be used once, on `inner`.
    pub fn new(inner: crate::index::IndexBuilder) -> (r: IndexBuilder)
        ensures
            r.inner.name@ == "IndexBuilder"@,
            r.inner.inner == Some(inner),
    {
        IndexBuilder { inner: BuilderWrapper::new("IndexBuilder", inner) }
    }

    /// Create a scalar index. Fails where the builder was used before.
    pub fn scalar(&mut self) -> (r: Result<ScalarIndexBuilder, Error>)
        ensures
            final(self).inner.inner is None,
            final(self).inner.name == old(self).inner.name,
            match r {
                Ok(scalar) => {
                    &&& old(self).inner.inner matches Some(b)
                    &&& scalar.inner.inner matches Some(s)
                    &&& s.common@ == b@
                    &&& scalar.inner.name@ == "ScalarIndexBuilder"@
                },
                Err(e) => old(self).inner.inner is None && e@ == builder_consumed(
                    old(self).inner.name@,
                ),
            },
    {
        match self.inner.consume() {
            Ok(builder) => Ok(
                ScalarIndexBuilder {
                    inner: BuilderWrapper::new("ScalarIndexBuilder", builder.scalar()),
                },
            ),
            Err(e) => Err(e),
        }
    }

    /// Create a vector index. Fails where the builder was used before.
    pub fn vector(&mut self) -> (r: Result<VectorIndexBuilder, Error>)
        ensures
            final(self).inner.inner is None,
            final(self).inner.name == old(self).inner.name,
            match r {
                Ok(vector) => {
                    &&& old(self).inner.inner matches Some(b)
                    &&& vector.inner.inner matches Some(v)
                    &&& v.common@ == b@
                    &&& vector.inner.name@ == "VectorIndexBuilder"@
                },
                Err(e) => old(self).inner.inner is None && e@ == builder_consumed(
                    old(self).inner.name@,
                ),
            },
    {
        match self.inner.consume() {
            Ok(builder) => Ok(
                VectorIndexBuilder {
                    inner: BuilderWrapper::new("VectorIndexBuilder", builder.vector()),
                },
            ),
            Err(e) => Err(e),
        }
    }
}

impl ScalarIndexBuilder {
    /// The builder of a btree index, ready to be run. Fails where this
    /// builder was used before.
    pub fn btree(&mut self) -> (r: Result<BTreeIndexBuilder, Error>)
        ensures
            final(self).inner.inner is None,
            final(self).inner.name == old(self).inner.name,
            match r {
                Ok(btree) => old(self).inner.inner matches Some(b) && btree.common@ == b.common@,
                Err(e) => old(self).inner.inner is None && e@ == builder_consumed(
                    old(self).inner.name@,
                ),
            },
    {
        match self.inner.consume() {
            Ok(builder) => Ok(builder.btree()),
            Err(e) => Err(e),
        }
    }
}

/// The IVF PQ builder on the column and replacement rule `common`, with the
/// parameters that are given and the default of every other. The distance
/// is given by its name.
pub open spec fn spec_ivf_pq(
    common: IndexBuilderView,
    distance_type: Option<Seq<char>>,
    num_partitions: Option<u32>,
    num_sub_vectors: Option<u32>,
    max_iterations: Option<u32>,
    sample_rate: Option<u32>,
) -> Result<IvfPqIndexBuilderView, ErrorView> {
    let distance = match distance_type {
        Some(name) => spec_parse_distance_type(name),
        None => Ok(DistanceType::L2),
    };
    match distance {
        Err(e) => Err(e),
        Ok(d) => Ok(
            IvfPqIndexBuilderView {
                common,
                distance_type: d,
                num_partitions,
                num_sub_vectors,
                max_iterations: match max_iterations {
                    Some(n) => n,
                    None => DEFAULT_MAX_ITERATIONS,
                },
                sample_rate: match sample_rate {
                    Some(n) => n,
                    None => DEFAULT_SAMPLE_RATE,
                },
            },
        ),
    }
}

impl VectorIndexBuilder {
    /// The builder of an IVF PQ index with the parameters that are given,
    /// ready to be run. The distance is given by its name: `l2`, `cosine`
    /// or `dot`.
    ///
    /// Fails where this builder was used before, and where the distance has
    /// another name; either way the builder is used up.
    pub fn ivf_pq(
        &mut self,
        distance_type: Option<&str>,
        num_partitions: Option<u32>,
        num_sub_vectors: Option<u32>,
        max_iterations: Option<u32>,
        sample_rate: Option<u32>,
    ) -> (r: Result<IvfPqIndexBuilder, Error>)
        ensures
            final(self).inner.inner is None,
            final(self).inner.name == old(self).inner.name,
            match old(self).inner.inner {
                None => r matches Err(e) && e@ == builder_consumed(old(self).inner.name@),
                Some(builder) => {
                    let expected = spec_ivf_pq(
                        builder.common@,
                        match distance_type {
                            Some(name) => Some(name@),
                            None => None,
                        },
                        num_partitions,
                        num_sub_vectors,
                        max_iterations,
                        sample_rate,
                    );
                    match r {
                        Ok(ivf_pq) => expected == Ok::<IvfPqIndexBuilderView, ErrorView>(ivf_pq@),
                        Err(e) => expected == Err::<IvfPqIndexBuilderView, ErrorView>(e@),
                    }
                },
            },
    {
        let mut ivf_pq_builder = match self.inner.consume() {
            Ok(builder) => builder.ivf_pq(),
            Err(e) => {
                return Err(e);
            },
        };
        if let Some(name) = distance_type {
            let distance = match parse_distance_type(name) {
                Ok(distance) => distance,
                Err(e) => {
                    return Err(e);
                },
            };
            ivf_pq_builder = ivf_pq_builder.distance_type(distance);
        }
        if let Some(n) = num_partitions {
            ivf_pq_builder = ivf_pq_builder.num_partitions(n);
        }
        if let Some(n) = num_sub_vectors {
            ivf_pq_builder = ivf_pq_builder.num_sub_vectors(n);
        }
        if let Some(n) = max_iterations {
            ivf_pq_builder = ivf_pq_builder.max_iterations(n);
        }
        if let Some(n) = sample_rate {
            ivf_pq_builder = ivf_pq_builder.sample_rate(n);
        }
        Ok(ivf_pq_builder)
    }
}

/// A table that can be closed. Its name is kept, so that it can be shown
/// after the table itself has been given up.
#[derive(Debug)]
pub struct Table<T> {
    pub name: String,
    pub inner: Option<T>,
}

/// The failure of using the table `name` after it was closed.
pub open spec fn table_closed(name: Seq<char>) -> ErrorView {
    ErrorView::InvalidInput { message: "Table "@ + name + " is closed"@ }
}

impl<T> Table<T> {
    /// An open handle on `inner`, the table called `name`.
    pub fn new(name: String, inner: T) -> (h: Self)
        ensures
            h.name == name,
            h.inner == Some(inner),
    {
        Table { name, inner: Some(inner) }
    }

    /// The name of the table, open or closed.
    pub fn name(&self) -> (name: String)
        ensures
            name@ == self.name@,
    {
        self.name.clone()
    }

    /// Whether the table has not been closed.
    pub fn is_open(&self) -> (b: bool)
        ensures
            b == (self.inner is Some),
    {
        self.inner.is_some()
    }

    /// Gives the table up. Closing a closed table does nothing.
    pub fn close(&mut self)
        ensures
            final(self).inner is None,
            final(self).name == old(self).name,
    {
        self.inner = None;
    }

    /// The table, where it is open.
    pub fn inner_ref(&self) -> (r: Result<&T, Error>)
        ensures
            match r {
                Ok(inner) => self.inner == Some(*inner),
                Err(e) => self.inner is None && e@ == table_closed(self.name@),
            },
    {
        match &self.inner {
            Some(inner) => Ok(inner),
            None => Err(
                Error::InvalidInput {
                    message: String::from_str("Table ").concat(self.name.as_str()).concat(
                        " is closed",
                    ),
                },
            ),
        }
    }

    /// A builder that adds `data` in the mode called `mode`: `append` or
    /// `overwrite`. Fails where the table is closed, and where the mode has
    /// another name.
    pub fn add<D, P>(&self, data: D, mode: &str) -> (r: Result<AddDataBuilder<D, P>, Error>)
        ensures
            match r {
                Ok(builder) => {
                    &&& self.inner is Some
                    &&& spec_parse_add_mode(mode@) == Ok::<AddDataMode, ErrorView>(builder.mode)
                    &&& builder.data == data
                    &&& builder.write_options.lance_write_params is None
                },
                Err(e) => if self.inner is None {
                    e@ == table_closed(self.name@)
                } else {
                    spec_parse_add_mode(mode@) == Err::<AddDataMode, ErrorView>(e@)
                },
            },
    {
        if let Err(e) = self.inner_ref() {
            return Err(e);
        }
        match parse_add_mode(mode) {
            Ok(mode) => Ok(AddDataBuilder::new(data).mode(mode)),
            Err(e) => Err(e),
        }
    }

    /// A builder of an index on the column and with the replacement rule
    /// that are given, which can be used once. Fails where the table is
    /// closed.
    pub fn create_index(&self, column: Option<&str>, replace: Option<bool>) -> (r: Result<
        IndexBuilder,
        Error,
    >)
        ensures
            match r {
                Ok(builder) => {
                    &&& self.inner is Some
                    &&& builder.inner.name@ == "IndexBuilder"@
                    &&& builder.inner.inner matches Some(b)
                    &&& b@ == (IndexBuilderView {
                        columns: match column {
                            Some(c) => Some(seq![c@]),
                            None => None,
                        },
                        replace: match replace {
                            Some(v) => v,
                            None => true,
                        },
                    })
                },
                Err(e) => self.inner is None && e@ == table_closed(self.name@),
            },
    {
        if let Err(e) = self.inner_ref() {
            return Err(e);
        }
        let builder = crate::index::IndexBuilder::new().with_options(column, replace);
        Ok(IndexBuilder::new(builder))
    }

    /// The text that a closed table is shown as; `None` where the table is
    /// open, and shown as itself.
    pub fn closed_repr(&self) -> (r: Option<String>)
        ensures
            match r {
                Some(text) => self.inner is None && text@ == "ClosedTable("@ + self.name@ + ")"@,
                None => self.inner is Some,
            },
    {
        match &self.inner {
            Some(_) => None,
            None => Some(
                String::from_str("ClosedTable(").concat(self.name.as_str()).concat(")"),
            ),
        }
    }
}

} // verus!
