[package]
name = "liquid-glass"
version = "0.1.0"
edition = "2021"
publish = false

[dependencies]
wasm-bindgen = "0.2"
js-sys = "0.3"
web-sys = { version = "0.3", features = ["Window", "Document", "Element", "HtmlElement", "HtmlCanvasElement", "MouseEvent", "CssStyleDeclaration", "DomRect", "Performance", "Node", "NodeList", "DomStringMap", "EventTarget", "Event", "WebGl2RenderingContext", "WebGlProgram", "WebGlShader", "WebGlUniformLocation", "WebGlBuffer"] }
