use vstd::prelude::*;
use vstd::string::*;

use crate::error::OpenPageError;
use crate::model::{ElementHandle, OneOrPlaceholder, WebElement};
use crate::route::{Backend, Route};

verus! {

/// The elements one locator of a batch found.
#[derive(Debug)]
pub struct LocatorMatch<T> {
    /// The locator as written.
    pub locator: String,
    pub elements: Vec<T>,
}

/// How a read of an element is answered.
#[derive(Debug)]
pub enum ElementRead {
    /// The element's component answers by itself.
    Ask(Route),
    /// The session element's attribute of this name is read, and the answer
    /// is made from it.
    Attribute(&'static str),
    /// The session element's children are read (those the locator matches,
    /// if one is given), and the answer is made from them.
    Children(Option<&'static str>),
}

/// Where an element is dragged to.
pub enum WebElementDragTarget<'a> {
    /// Onto another element.
    Element(&'a WebElement),
    /// Onto the element a locator finds, searched from the dragged element.
    Locator,
    /// Onto a point of the page.
    Coordinates,
}

/// The option or options a select operation is given.
pub enum WebSelectOptionInput<'a> {
    Single(&'a WebElement),
    Many(Vec<&'a WebElement>),
}

/// How a batch of option elements is worked through: the first `run`
/// options are handed to the browser one by one, then `failure` is
/// reported if the batch stops early.
#[derive(Debug)]
pub struct OptionBatch {
    pub run: usize,
    pub failure: Option<OpenPageError>,
}

impl<'a> WebSelectOptionInput<'a> {
    /// The options given, in order.
    pub open spec fn options(self) -> Seq<&'a WebElement> {
        match self {
            WebSelectOptionInput::Single(o) => seq![o],
            WebSelectOptionInput::Many(v) => v@,
        }
    }
}

impl WebElement {
    /// The element a found handle becomes: a session element for a session
    /// element, the wrapped browser element otherwise.
    pub open spec fn found_element(self, found: ElementHandle) -> WebElement {
        match self {
            WebElement::Session(_) => WebElement::Session(found),
            _ => self.wrapped_element(found),
        }
    }

    /// Whether `batch` is the plan for handing `options` to this element's
    /// select operation `op`: an empty batch does nothing; a session element
    /// refuses; otherwise options are handed over up to the first one that
    /// is not browser-backed, which stops the batch.
    pub open spec fn option_batch(self, options: Seq<&WebElement>, op: &'static str, batch: OptionBatch) -> bool {
        if options.len() == 0 {
            batch.run == 0 && batch.failure is None
        } else if self is Session {
            batch.run == 0 && batch.failure == Some(OpenPageError::DriverModeOnly(op))
        } else {
            &&& batch.run <= options.len()
            &&& forall|i: int| 0 <= i < batch.run ==> (#[trigger] options[i]).is_browser_backed()
            &&& batch.run < options.len() ==> !options[batch.run as int].is_browser_backed()
                && batch.failure == Some(OpenPageError::BrowserBackedOptionRequired(op))
            &&& batch.run == options.len() ==> batch.failure is None
        }
    }

    /// Dragging needs this element and the target element browser-backed.
    pub open spec fn drag_onto(self, target: WebElement, op: &'static str, target_name: &'static str) -> Route {
        if self is Session {
            Route::Refuse(OpenPageError::DriverModeOnly(op))
        } else if target is Session {
            Route::Refuse(OpenPageError::DriverElementRequired(target_name))
        } else {
            Route::Run(Backend::Driver)
        }
    }

    pub fn found(&self, found: ElementHandle) -> (element: WebElement)
        ensures
            element == self.found_element(found),
    {
        match self {
            WebElement::Session(_) => WebElement::Session(found),
            _ => self.wrap_browser_element(found),
        }
    }

    /// What `ele` gives, given what the component's lookup gave: an error
    /// is passed on; a found element keeps this element's context; a miss
    /// keeps the placeholder the lookup gave.
    pub fn ele_found<P, E>(&self, found: Result<OneOrPlaceholder<ElementHandle, P>, E>) -> (element:
        Result<OneOrPlaceholder<WebElement, P>, E>)
        ensures
            element == match found {
                Ok(OneOrPlaceholder::Found(h)) => Ok(OneOrPlaceholder::Found(self.found_element(h))),
                Ok(OneOrPlaceholder::Missing(p)) => Ok(OneOrPlaceholder::Missing(p)),
                Err(x) => Err::<OneOrPlaceholder<WebElement, P>, E>(x),
            },
    {
        match found {
            Ok(OneOrPlaceholder::Found(h)) => Ok(OneOrPlaceholder::Found(self.found(h))),
            Ok(OneOrPlaceholder::Missing(p)) => Ok(OneOrPlaceholder::Missing(p)),
            Err(x) => Err(x),
        }
    }

    /// Wraps the handles a search found, keeping this element's context.
    pub fn wrap_found_elements(&self, found: &Vec<ElementHandle>) -> (elements: Vec<WebElement>)
        ensures
            elements@.len() == found@.len(),
            forall|i: int|
                0 <= i < found@.len() ==> elements@[i] == self.found_element(#[trigger] found@[i]),
    {
        let mut elements: Vec<WebElement> = Vec::new();
        let mut i: usize = 0;
        while i < found.len()
            invariant
                i <= found@.len(),
                elements@.len() == i,
                forall|j: int|
                    0 <= j < i ==> elements@[j] == self.found_element(#[trigger] found@[j]),
            decreases found@.len() - i,
        {
            elements.push(self.found(found[i]));
            i = i + 1;
        }
        elements
    }

    /// `wrapped` keeps each locator of `found` with its elements, in order,
    /// each in this element's context.
    pub open spec fn found_matches(
        self,
        found: Seq<LocatorMatch<ElementHandle>>,
        wrapped: Seq<LocatorMatch<WebElement>>,
    ) -> bool {
        &&& wrapped.len() == found.len()
        &&& forall|i: int|
            #![trigger wrapped[i]]
            0 <= i < found.len() ==> {
                &&& wrapped[i].locator == found[i].locator
                &&& wrapped[i].elements@.len() == found[i].elements@.len()
                &&& forall|j: int|
                    0 <= j < found[i].elements@.len() ==> wrapped[i].elements@[j]
                        == self.found_element(#[trigger] found[i].elements@[j])
            }
    }

    /// What `find_locators` gives, given what the component's batch search
    /// gave: an error is passed on unchanged; otherwise each locator keeps
    /// its elements, in order, in this element's context.
    pub fn wrap_locator_matches<E>(&self, found: Result<Vec<LocatorMatch<ElementHandle>>, E>) -> (wrapped:
        Result<Vec<LocatorMatch<WebElement>>, E>)
        ensures
            match found {
                Ok(w) => wrapped matches Ok(v) && self.found_matches(w@, v@),
                Err(x) => wrapped == Err::<Vec<LocatorMatch<WebElement>>, E>(x),
            },
    {
        let matches = match found {
            Ok(w) => w,
            Err(x) => return Err(x),
        };
        let mut wrapped: Vec<LocatorMatch<WebElement>> = Vec::new();
        let mut i: usize = 0;
        while i < matches.len()
            invariant
                i <= matches@.len(),
                wrapped@.len() == i,
                forall|k: int|
                    #![trigger wrapped@[k]]
                    0 <= k < i ==> {
                        &&& wrapped@[k].locator == matches@[k].locator
                        &&& wrapped@[k].elements@.len() == matches@[k].elements@.len()
                        &&& forall|j: int|
                            0 <= j < matches@[k].elements@.len() ==> wrapped@[k].elements@[j]
                                == self.found_element(#[trigger] matches@[k].elements@[j])
                    },
            decreases matches@.len() - i,
        {
            let item = &matches[i];
            let elements = self.wrap_found_elements(&item.elements);
            wrapped.push(LocatorMatch { locator: item.locator.clone(), elements });
            i = i + 1;
        }
        Ok(wrapped)
    }

    /// The locator of the selected options: checked options of a live
    /// select, options marked `selected` in a session document.
    pub fn selected_options_locator(&self) -> (locator: &'static str)
        ensures
            self is Session ==> locator@ == "css:option[selected]"@,
            !(self is Session) ==> locator@ == "css:option:checked"@,
    {
        match self {
            WebElement::Session(_) => "css:option[selected]",
            _ => "css:option:checked",
        }
    }

    pub fn drag_to_element(&self, target: &WebElement) -> (route: Route)
        ensures
            route == self.drag_onto(*target, "drag_to_element()", "drag_to_element() target"),
    {
        if self.browser_element().is_none() {
            return Route::Refuse(OpenPageError::DriverModeOnly("drag_to_element()"));
        }
        if target.browser_element().is_none() {
            return Route::Refuse(OpenPageError::DriverElementRequired("drag_to_element() target"));
        }
        Route::Run(Backend::Driver)
    }

    /// Dragging onto a located element drags onto what this element finds,
    /// which is browser-backed exactly when this element is.
    /// For an element or a point the drag is decided here. For a locator
    /// the search for the target comes first, by this element's kind;
    /// `drag_to_located` then decides on what it found.
    pub fn drag_to(&self, target: &WebElementDragTarget) -> (route: Route)
        ensures
            match *target {
                WebElementDragTarget::Element(t) => route == self.drag_onto(
                    *t,
                    "drag_to()",
                    "drag_to() target",
                ),
                WebElementDragTarget::Locator => route == self.by_kind(),
                WebElementDragTarget::Coordinates => route == self.driver_only("drag_to()"),
            },
    {
        match target {
            WebElementDragTarget::Element(t) => {
                if self.browser_element().is_none() {
                    return Route::Refuse(OpenPageError::DriverModeOnly("drag_to()"));
                }
                if t.browser_element().is_none() {
                    return Route::Refuse(OpenPageError::DriverElementRequired("drag_to() target"));
                }
                Route::Run(Backend::Driver)
            },
            WebElementDragTarget::Locator => self.route_by_kind(),
            WebElementDragTarget::Coordinates => self.route_driver_only("drag_to()"),
        }
    }

    /// The drag onto the element a locator target found, given what the
    /// search gave: an error of the search is passed on unchanged.
    pub fn drag_to_located<E>(&self, found: Result<ElementHandle, E>) -> (route: Result<Route, E>)
        ensures
            match found {
                Ok(h) => route == Ok::<Route, E>(
                    self.drag_onto(self.found_element(h), "drag_to()", "drag_to() target"),
                ),
                Err(x) => route == Err::<Route, E>(x),
            },
    {
        match found {
            Err(x) => Err(x),
            Ok(h) => {
                let t = self.found(h);
                if self.browser_element().is_none() {
                    return Ok(Route::Refuse(OpenPageError::DriverModeOnly("drag_to()")));
                }
                if t.browser_element().is_none() {
                    return Ok(Route::Refuse(OpenPageError::DriverElementRequired("drag_to() target")));
                }
                Ok(Route::Run(Backend::Driver))
            },
        }
    }

    fn plan_option_batch(&self, options: &Vec<&WebElement>, op: &'static str) -> (batch: OptionBatch)
        ensures
            self.option_batch(options@, op, batch),
    {
        if options.len() == 0 {
            return OptionBatch { run: 0, failure: None };
        }
        if self.browser_element().is_none() {
            return OptionBatch { run: 0, failure: Some(OpenPageError::DriverModeOnly(op)) };
        }
        let mut i: usize = 0;
        while i < options.len()
            invariant
                i <= options@.len(),
                options@.len() > 0,
                !(*self is Session),
                forall|j: int| 0 <= j < i ==> (#[trigger] options@[j]).is_browser_backed(),
            decreases options@.len() - i,
        {
            if options[i].browser_element().is_none() {
                return OptionBatch {
                    run: i,
                    failure: Some(OpenPageError::BrowserBackedOptionRequired(op)),
                };
            }
            i = i + 1;
        }
        OptionBatch { run: i, failure: None }
    }

    pub fn select_by_options(&self, options: &Vec<&WebElement>) -> (batch: OptionBatch)
        ensures
            self.option_batch(options@, "select_by_option()", batch),
    {
        self.plan_option_batch(options, "select_by_option()")
    }

    pub fn cancel_by_options(&self, options: &Vec<&WebElement>) -> (batch: OptionBatch)
        ensures
            self.option_batch(options@, "cancel_by_option()", batch),
    {
        self.plan_option_batch(options, "cancel_by_option()")
    }

    fn input_options<'a>(option: &WebSelectOptionInput<'a>) -> (options: Vec<&'a WebElement>)
        ensures
            options@ == option.options(),
    {
        match option {
            WebSelectOptionInput::Single(o) => {
                let mut v: Vec<&'a WebElement> = Vec::new();
                v.push(*o);
                proof {
                    assert(v@ =~= seq![*o]);
                }
                v
            },
            WebSelectOptionInput::Many(v) => {
                let mut copy: Vec<&'a WebElement> = Vec::new();
                let mut i: usize = 0;
                while i < v.len()
                    invariant
                        i <= v@.len(),
                        copy@ == v@.subrange(0, i as int),
                    decreases v@.len() - i,
                {
                    copy.push(v[i]);
                    proof {
                        assert(copy@ =~= v@.subrange(0, i + 1));
                    }
                    i = i + 1;
                }
                proof {
                    assert(copy@ =~= v@);
                }
                copy
            },
        }
    }

    pub fn select_by_option(&self, option: &WebSelectOptionInput) -> (batch: OptionBatch)
        ensures
            self.option_batch(option.options(), "select_by_option()", batch),
    {
        let options = Self::input_options(option);
        self.plan_option_batch(&options, "select_by_option()")
    }

    pub fn cancel_by_option(&self, option: &WebSelectOptionInput) -> (batch: OptionBatch)
        ensures
            self.option_batch(option.options(), "cancel_by_option()", batch),
    {
        let options = Self::input_options(option);
        self.plan_option_batch(&options, "cancel_by_option()")
    }
}

/// A batch of select operations matched when any one of them did.
pub fn any_matched(results: &Vec<bool>) -> (matched: bool)
    ensures
        matched == (exists|i: int| 0 <= i < results@.len() && #[trigger] results@[i]),
{
    let mut i: usize = 0;
    while i < results.len()
        invariant
            i <= results@.len(),
            forall|j: int| 0 <= j < i ==> !#[trigger] results@[j],
        decreases results@.len() - i,
    {
        if results[i] {
            return true;
        }
        i = i + 1;
    }
    false
}

/// Whether an attribute is present on a session element (`multiple` for
/// `is_multi_select`), given what reading it gave: an error is passed on.
pub fn attribute_present<E>(read: Result<Option<String>, E>) -> (present: Result<bool, E>)
    ensures
        match read {
            Ok(value) => present == Ok::<bool, E>(value is Some),
            Err(x) => present == Err::<bool, E>(x),
        },
{
    match read {
        Ok(value) => Ok(value.is_some()),
        Err(x) => Err(x),
    }
}

/// How many children a session element has, given what reading them gave.
pub fn children_counted<E>(read: Result<Vec<ElementHandle>, E>) -> (count: Result<usize, E>)
    ensures
        match read {
            Ok(children) => count == Ok::<usize, E>(children@.len() as usize),
            Err(x) => count == Err::<usize, E>(x),
        },
{
    match read {
        Ok(children) => Ok(children.len()),
        Err(x) => Err(x),
    }
}

/// The link of a session element: its `href` when that is present and not
/// empty, otherwise its `src`.
pub fn session_link(href: Option<String>, src: Option<String>) -> (link: Option<String>)
    ensures
        match href {
            Some(h) => h@.len() > 0 ==> link == Some(h),
            None => true,
        },
        !(href matches Some(h) && h@.len() > 0) ==> link == src,
{
    match href {
        Some(h) => {
            if h.as_str().unicode_len() > 0 {
                Some(h)
            } else {
                src
            }
        },
        None => src,
    }
}

/// The texts that are present, in order: option texts of a session select
/// skip options without text.
pub open spec fn present(texts: Seq<Option<String>>) -> Seq<String>
    decreases texts.len(),
{
    if texts.len() == 0 {
        Seq::empty()
    } else {
        let rest = present(texts.drop_last());
        match texts.last() {
            Some(t) => rest.push(t),
            None => rest,
        }
    }
}

pub fn present_texts(texts: Vec<Option<String>>) -> (present_texts: Vec<String>)
    ensures
        present_texts@ == present(texts@),
{
    let mut out: Vec<String> = Vec::new();
    let mut rest = texts;
    let ghost all = rest@;
    let mut i: usize = 0;
    while i < rest.len()
        invariant
            rest@ == all,
            i <= all.len(),
            out@ == present(all.subrange(0, i as int)),
        decreases all.len() - i,
    {
        proof {
            assert(all.subrange(0, i + 1).drop_last() =~= all.subrange(0, i as int));
        }
        match &rest[i] {
            Some(t) => out.push(t.clone()),
            None => {},
        }
        i = i + 1;
    }
    proof {
        assert(all.subrange(0, all.len() as int) =~= all);
    }
    out
}

/// The text of the first selected option of a session select, if it has one.
pub fn first_option_text(texts: Vec<Option<String>>) -> (text: Option<String>)
    ensures
        texts@.len() == 0 ==> text is None,
        texts@.len() > 0 ==> text == texts@[0],
{
    let mut texts = texts;
    if texts.len() == 0 {
        None
    } else {
        texts.swap_remove(0)
    }
}

} // verus!
