//! The web-project backend: renders a full project directory tree.
//!
//! Directory-mode output owns the whole layout: a fixed set of
//! subdirectories, fixed configuration and manifest assets written
//! verbatim, and a main page assembled from the recognized sections of the
//! program's `next`-typed declarations; an unrecognized section name
//! renders as an inert labeled placeholder rather than an error.
//! Everything written is a deterministic function of the tree and the
//! fixed templates.

use vstd::prelude::*;

use crate::ast::{ElemView, Element, Node, NodeView, elem_view, node_view};
use crate::compilers::{GeneratedFile, ProjectTree, TargetCompiler, TreeView};
use crate::strutil::{head_before, split_head, str_eq};

verus! {

pub const NEXT_PACKAGE_JSON: &'static str = r#"{
  "name": "z-generated-nextjs",
  "version": "0.1.0",
  "private": true,
  "scripts": {
    "dev": "next dev",
    "build": "next build",
    "start": "next start",
    "lint": "next lint",
    "lint:fix": "next lint --fix",
    "type-check": "tsc --noEmit"
  },
  "dependencies": {
    "next": "^14.0.0",
    "react": "^18.2.0",
    "react-dom": "^18.2.0",
    "@radix-ui/react-slot": "^1.0.2",
    "@radix-ui/react-icons": "^1.3.0",
    "class-variance-authority": "^0.7.0",
    "clsx": "^2.0.0",
    "lucide-react": "^0.294.0",
    "tailwind-merge": "^2.0.0",
    "tailwindcss-animate": "^1.0.7"
  },
  "devDependencies": {
    "@types/node": "^20.9.0",
    "@types/react": "^18.2.37",
    "@types/react-dom": "^18.2.15",
    "autoprefixer": "^10.4.16",
    "eslint": "^8.53.0",
    "eslint-config-next": "14.0.0",
    "postcss": "^8.4.31",
    "tailwindcss": "^3.3.5",
    "typescript": "^5.2.2"
  },
  "packageManager": "pnpm@8.10.0"
}"#;

pub const NEXT_PNPM_WORKSPACE: &'static str = r#"packages:
  - "."
"#;

pub const NEXT_CONFIG_JS: &'static str = r#"/** @type {import('next').NextConfig} */
const nextConfig = {
  experimental: {
    appDir: true,
  },
}

module.exports = nextConfig
"#;

pub const NEXT_TAILWIND_CONFIG: &'static str = r#"/** @type {import('tailwindcss').Config} */
module.exports = {
  darkMode: ["class"],
  content: [
    './pages/**/*.{ts,tsx}',
    './components/**/*.{ts,tsx}',
    './app/**/*.{ts,tsx}',
    './src/**/*.{ts,tsx}',
  ],
  theme: {
    container: {
      center: true,
      padding: "2rem",
      screens: {
        "2xl": "1400px",
      },
    },
    extend: {
      colors: {
        border: "hsl(var(--border))",
        input: "hsl(var(--input))",
        ring: "hsl(var(--ring))",
        background: "hsl(var(--background))",
        foreground: "hsl(var(--foreground))",
        primary: {
          DEFAULT: "hsl(var(--primary))",
          foreground: "hsl(var(--primary-foreground))",
        },
        secondary: {
          DEFAULT: "hsl(var(--secondary))",
          foreground: "hsl(var(--secondary-foreground))",
        },
        destructive: {
          DEFAULT: "hsl(var(--destructive))",
          foreground: "hsl(var(--destructive-foreground))",
        },
        muted: {
          DEFAULT: "hsl(var(--muted))",
          foreground: "hsl(var(--muted-foreground))",
        },
        accent: {
          DEFAULT: "hsl(var(--accent))",
          foreground: "hsl(var(--accent-foreground))",
        },
        popover: {
          DEFAULT: "hsl(var(--popover))",
          foreground: "hsl(var(--popover-foreground))",
        },
        card: {
          DEFAULT: "hsl(var(--card))",
          foreground: "hsl(var(--card-foreground))",
        },
      },
      borderRadius: {
        lg: "var(--radius)",
        md: "calc(var(--radius) - 2px)",
        sm: "calc(var(--radius) - 4px)",
      },
      keyframes: {
        "accordion-down": {
          from: { height: 0 },
          to: { height: "var(--radix-accordion-content-height)" },
        },
        "accordion-up": {
          from: { height: "var(--radix-accordion-content-height)" },
          to: { height: 0 },
        },
      },
      animation: {
        "accordion-down": "accordion-down 0.2s ease-out",
        "accordion-up": "accordion-up 0.2s ease-out",
      },
    },
  },
  plugins: [require("tailwindcss-animate")],
}
"#;

pub const NEXT_POSTCSS_CONFIG: &'static str = r#"module.exports = {
  plugins: {
    tailwindcss: {},
    autoprefixer: {},
  },
}
"#;

pub const NEXT_TSCONFIG: &'static str = r#"{
  "compilerOptions": {
    "target": "es5",
    "lib": ["dom", "dom.iterable", "es6"],
    "allowJs": true,
    "skipLibCheck": true,
    "strict": true,
    "noEmit": true,
    "esModuleInterop": true,
    "module": "esnext",
    "moduleResolution": "bundler",
    "resolveJsonModule": true,
    "isolatedModules": true,
    "jsx": "preserve",
    "incremental": true,
    "plugins": [
      {
        "name": "next"
      }
    ],
    "baseUrl": ".",
    "paths": {
      "@/*": ["./*"]
    }
  },
  "include": ["next-env.d.ts", "**/*.ts", "**/*.tsx", ".next/types/**/*.ts"],
  "exclude": ["node_modules"]
}
"#;

pub const NEXT_LAYOUT_TSX: &'static str = r#"import type { Metadata } from 'next'
import { Inter } from 'next/font/google'
import './globals.css'

const inter = Inter({ subsets: ['latin'] })

export const metadata: Metadata = {
  title: 'Z Generated App',
  description: 'Generated by Z compiler',
}

export default function RootLayout({
  children,
}: {
  children: React.ReactNode
}) {
  return (
    <html lang="en">
      <body className={inter.className}>{children}</body>
    </html>
  )
}
"#;

pub const NEXT_ROUTES_SECTION: &'static str = r#"<div className="bg-white dark:bg-slate-800 rounded-lg shadow-md p-6">
            <h2 className="text-2xl font-semibold text-slate-900 dark:text-slate-100 mb-4">üõ£Ô∏è Routes</h2>
            <p className="text-slate-600 dark:text-slate-400 mb-4">Your application routes are ready to be implemented.</p>
            <Button variant="outline">Explore Routes</Button>
          </div>"#;

pub const NEXT_API_SECTION: &'static str = r#"<div className="bg-white dark:bg-slate-800 rounded-lg shadow-md p-6">
            <h2 className="text-2xl font-semibold text-slate-900 dark:text-slate-100 mb-4">üîå API</h2>
            <p className="text-slate-600 dark:text-slate-400 mb-4">API endpoints are configured and ready for development.</p>
            <div className="bg-slate-50 dark:bg-slate-700 rounded p-3">
              <code className="text-sm text-slate-700 dark:text-slate-300">GET /api/example</code>
            </div>
          </div>"#;

pub const NEXT_COMPONENTS_SECTION: &'static str = r#"<div className="bg-white dark:bg-slate-800 rounded-lg shadow-md p-6">
            <h2 className="text-2xl font-semibold text-slate-900 dark:text-slate-100 mb-4">üß© Components</h2>
            <p className="text-slate-600 dark:text-slate-400 mb-4">Reusable components with shadcn/ui integration.</p>
            <div className="grid grid-cols-1 md:grid-cols-3 gap-4">
              <div className="bg-slate-50 dark:bg-slate-700 rounded p-4 text-center">
                <div className="text-2xl mb-2">üì±</div>
                <p className="text-sm font-medium">Responsive</p>
              </div>
              <div className="bg-slate-50 dark:bg-slate-700 rounded p-4 text-center">
                <div className="text-2xl mb-2">üé®</div>
                <p className="text-sm font-medium">Styled</p>
              </div>
              <div className="bg-slate-50 dark:bg-slate-700 rounded p-4 text-center">
                <div className="text-2xl mb-2">‚ö°</div>
                <p className="text-sm font-medium">Fast</p>
              </div>
            </div>
          </div>"#;

pub const NEXT_UTILS_TS: &'static str = r#"import { type ClassValue, clsx } from "clsx"
import { twMerge } from "tailwind-merge"

export function cn(...inputs: ClassValue[]) {
  return twMerge(clsx(inputs))
}
"#;

pub const NEXT_COMPONENTS_JSON: &'static str = r#"{
  "$schema": "https://ui.shadcn.com/schema.json",
  "style": "default",
  "rsc": true,
  "tsx": true,
  "tailwind": {
    "config": "tailwind.config.js",
    "css": "app/globals.css",
    "baseColor": "slate",
    "cssVariables": true
  },
  "aliases": {
    "components": "@/components",
    "utils": "@/lib/utils"
  }
}
"#;

pub const NEXT_BUTTON_TSX: &'static str = r#"import * as React from "react"
import { Slot } from "@radix-ui/react-slot"
import { cva, type VariantProps } from "class-variance-authority"

import { cn } from "@/lib/utils"

const buttonVariants = cva(
  "inline-flex items-center justify-center rounded-md text-sm font-medium ring-offset-background transition-colors focus-visible:outline-none focus-visible:ring-2 focus-visible:ring-ring focus-visible:ring-offset-2 disabled:pointer-events-none disabled:opacity-50",
  {
    variants: {
      variant: {
        default: "bg-primary text-primary-foreground hover:bg-primary/90",
        destructive:
          "bg-destructive text-destructive-foreground hover:bg-destructive/90",
        outline:
          "border border-input bg-background hover:bg-accent hover:text-accent-foreground",
        secondary:
          "bg-secondary text-secondary-foreground hover:bg-secondary/80",
        ghost: "hover:bg-accent hover:text-accent-foreground",
        link: "text-primary underline-offset-4 hover:underline",
      },
      size: {
        default: "h-10 px-4 py-2",
        sm: "h-9 rounded-md px-3",
        lg: "h-11 rounded-md px-8",
        icon: "h-10 w-10",
      },
    },
    defaultVariants: {
      variant: "default",
      size: "default",
    },
  }
)

export interface ButtonProps
  extends React.ButtonHTMLAttributes<HTMLButtonElement>,
    VariantProps<typeof buttonVariants> {
  asChild?: boolean
}

const Button = React.forwardRef<HTMLButtonElement, ButtonProps>(
  ({ className, variant, size, asChild = false, ...props }, ref) => {
    const Comp = asChild ? Slot : "button"
    return (
      <Comp
        className={cn(buttonVariants({ variant, size, className }))}
        ref={ref}
        {...props}
      />
    )
  }
)
Button.displayName = "Button"

export { Button, buttonVariants }
"#;

pub const NEXT_GLOBALS_CSS: &'static str = r#"@tailwind base;
@tailwind components;
@tailwind utilities;

@layer base {
  :root {
    --background: 0 0% 100%;
    --foreground: 222.2 84% 4.9%;

    --card: 0 0% 100%;
    --card-foreground: 222.2 84% 4.9%;

    --popover: 0 0% 100%;
    --popover-foreground: 222.2 84% 4.9%;

    --primary: 222.2 47.4% 11.2%;
    --primary-foreground: 210 40% 98%;

    --secondary: 210 40% 96%;
    --secondary-foreground: 222.2 47.4% 11.2%;

    --muted: 210 40% 96%;
    --muted-foreground: 215.4 16.3% 46.9%;

    --accent: 210 40% 96%;
    --accent-foreground: 222.2 47.4% 11.2%;

    --destructive: 0 84.2% 60.2%;
    --destructive-foreground: 210 40% 98%;

    --border: 214.3 31.8% 91.4%;
    --input: 214.3 31.8% 91.4%;
    --ring: 222.2 84% 4.9%;

    --radius: 0.5rem;
  }

  .dark {
    --background: 222.2 84% 4.9%;
    --foreground: 210 40% 98%;

    --card: 222.2 84% 4.9%;
    --card-foreground: 210 40% 98%;

    --popover: 222.2 84% 4.9%;
    --popover-foreground: 210 40% 98%;

    --primary: 210 40% 98%;
    --primary-foreground: 222.2 47.4% 11.2%;

    --secondary: 217.2 32.6% 17.5%;
    --secondary-foreground: 210 40% 98%;

    --muted: 217.2 32.6% 17.5%;
    --muted-foreground: 215 20.2% 65.1%;

    --accent: 217.2 32.6% 17.5%;
    --accent-foreground: 210 40% 98%;

    --destructive: 0 62.8% 30.6%;
    --destructive-foreground: 210 40% 98%;

    --border: 217.2 32.6% 17.5%;
    --input: 217.2 32.6% 17.5%;
    --ring: 212.7 26.8% 83.9%;
  }
}

@layer base {
  * {
    @apply border-border;
  }
  body {
    @apply bg-background text-foreground;
  }
}
"#;

/// The import line contributed by each `Routes` section.
pub const NEXT_IMPORT_BUTTON: &'static str =
    "import { Button } from '@/components/ui/button'";

pub const NEXT_DIV_OPEN: &'static str = "        <div className=\"mb-8\">\n";

pub const NEXT_DIV_CLOSE: &'static str = "        </div>\n";

/// The inert labeled placeholder rendered for an unrecognized section
/// name, wrapped around the name.
pub const NEXT_UNKNOWN_SECTION_OPEN: &'static str = "<!-- Unknown section: ";

pub const NEXT_UNKNOWN_SECTION_CLOSE: &'static str = " -->";

pub const NEXT_PAGE_HEADER: &'static str = "export default function Home() {\n  return (\n    <div className=\"min-h-screen bg-gradient-to-br from-slate-50 to-slate-100 dark:from-slate-900 dark:to-slate-800\">\n      <div className=\"container mx-auto px-4 py-8\">\n        <div className=\"text-center mb-12\">\n          <h1 className=\"text-4xl font-bold text-slate-900 dark:text-slate-100 mb-4\">\n            Welcome to Your Z Generated App\n          </h1>\n          <p className=\"text-xl text-slate-600 dark:text-slate-400\">\n            Built with Next.js, Tailwind CSS, and shadcn/ui\n          </p>\n        </div>\n\n";

pub const NEXT_PAGE_FOOTER: &'static str = "      </div>\n    </div>\n  )\n}\n";

/// The fixed subdirectory layout of a generated project.
pub open spec fn nextjs_dirs() -> Seq<Seq<char>> {
    seq![
        "app"@,
        "app/api"@,
        "app/globals"@,
        "components"@,
        "components/ui"@,
        "lib"@,
        "public"@,
        "styles"@,
    ]
}

/// The import lines one section contributes to the main page.
pub open spec fn section_import(n: NodeView) -> Seq<Seq<char>> {
    match n {
        NodeView::Element(e) => {
            if e.name == "Routes"@ {
                seq![NEXT_IMPORT_BUTTON@]
            } else {
                Seq::empty()
            }
        },
        _ => Seq::empty(),
    }
}

pub open spec fn section_imports(ss: Seq<NodeView>) -> Seq<Seq<char>>
    decreases ss.len(),
{
    if ss.len() == 0 {
        Seq::empty()
    } else {
        section_imports(ss.drop_last()) + section_import(ss.last())
    }
}

/// The rendered blocks one section contributes to the main page: a fixed
/// block for each recognized name, an inert labeled placeholder for any
/// other element, nothing for the leaf node shapes.
pub open spec fn section_component(n: NodeView) -> Seq<Seq<char>> {
    match n {
        NodeView::Element(e) => {
            if e.name == "Routes"@ {
                seq![NEXT_ROUTES_SECTION@]
            } else if e.name == "API"@ {
                seq![NEXT_API_SECTION@]
            } else if e.name == "Components"@ {
                seq![NEXT_COMPONENTS_SECTION@]
            } else {
                seq![NEXT_UNKNOWN_SECTION_OPEN@ + e.name + NEXT_UNKNOWN_SECTION_CLOSE@]
            }
        },
        _ => Seq::empty(),
    }
}

pub open spec fn section_components(ss: Seq<NodeView>) -> Seq<Seq<char>>
    decreases ss.len(),
{
    if ss.len() == 0 {
        Seq::empty()
    } else {
        section_components(ss.drop_last()) + section_component(ss.last())
    }
}

/// The sections one root child contributes: the children of every
/// declaration whose target type is `next`.
pub open spec fn next_children(n: NodeView) -> Seq<NodeView> {
    match n {
        NodeView::Element(e) => {
            if head_before(e.name, ':') == "next"@ {
                e.children
            } else {
                Seq::empty()
            }
        },
        _ => Seq::empty(),
    }
}

pub open spec fn next_sections(cs: Seq<NodeView>) -> Seq<NodeView>
    decreases cs.len(),
{
    if cs.len() == 0 {
        Seq::empty()
    } else {
        next_sections(cs.drop_last()) + next_children(cs.last())
    }
}

/// Lines concatenated, each followed by a line break.
pub open spec fn cat_lines(ls: Seq<Seq<char>>) -> Seq<char>
    decreases ls.len(),
{
    if ls.len() == 0 {
        Seq::empty()
    } else {
        cat_lines(ls.drop_last()) + ls.last() + "\n"@
    }
}

/// The import block of the main page: the import lines followed by one
/// blank line, or nothing at all when no section asked for an import.
pub open spec fn imports_block(ls: Seq<Seq<char>>) -> Seq<char> {
    if ls.len() == 0 {
        Seq::empty()
    } else {
        cat_lines(ls) + "\n"@
    }
}

/// One rendered component wrapped in its spacing container.
pub open spec fn component_block(c: Seq<char>) -> Seq<char> {
    NEXT_DIV_OPEN@ + "          "@ + c + "\n"@ + NEXT_DIV_CLOSE@
}

pub open spec fn component_blocks(ls: Seq<Seq<char>>) -> Seq<char>
    decreases ls.len(),
{
    if ls.len() == 0 {
        Seq::empty()
    } else {
        component_blocks(ls.drop_last()) + component_block(ls.last())
    }
}

/// The text of the generated main page for a program.
pub open spec fn main_page_text(program: ElemView) -> Seq<char> {
    let sections = next_sections(program.children);
    imports_block(section_imports(sections)) + NEXT_PAGE_HEADER@ + component_blocks(
        section_components(sections),
    ) + NEXT_PAGE_FOOTER@
}

/// The files of a generated project, in write order.
pub open spec fn nextjs_files(program: ElemView) -> Seq<(Seq<char>, Seq<char>)> {
    seq![
        ("package.json"@, NEXT_PACKAGE_JSON@),
        ("pnpm-workspace.yaml"@, NEXT_PNPM_WORKSPACE@),
        ("next.config.js"@, NEXT_CONFIG_JS@),
        ("tailwind.config.js"@, NEXT_TAILWIND_CONFIG@),
        ("postcss.config.js"@, NEXT_POSTCSS_CONFIG@),
        ("tsconfig.json"@, NEXT_TSCONFIG@),
        ("app/layout.tsx"@, NEXT_LAYOUT_TSX@),
        ("app/page.tsx"@, main_page_text(program)),
        ("lib/utils.ts"@, NEXT_UTILS_TS@),
        ("components.json"@, NEXT_COMPONENTS_JSON@),
        ("components/ui/button.tsx"@, NEXT_BUTTON_TSX@),
        ("app/globals.css"@, NEXT_GLOBALS_CSS@),
    ]
}

/// The whole directory tree generated for a program.
pub open spec fn nextjs_tree(program: ElemView) -> TreeView {
    TreeView { dirs: nextjs_dirs(), files: nextjs_files(program) }
}

pub proof fn lemma_section_imports_concat(a: Seq<NodeView>, b: Seq<NodeView>)
    ensures
        section_imports(a + b) == section_imports(a) + section_imports(b),
    decreases b.len(),
{
    if b.len() == 0 {
        assert(a + b =~= a);
        assert(section_imports(a) + section_imports(b) =~= section_imports(a));
    } else {
        assert((a + b).drop_last() =~= a + b.drop_last());
        assert((a + b).last() == b.last());
        lemma_section_imports_concat(a, b.drop_last());
        assert(section_imports(a) + section_imports(b.drop_last()) + section_import(b.last())
            =~= section_imports(a) + (section_imports(b.drop_last()) + section_import(b.last())));
    }
}

pub proof fn lemma_section_components_concat(a: Seq<NodeView>, b: Seq<NodeView>)
    ensures
        section_components(a + b) == section_components(a) + section_components(b),
    decreases b.len(),
{
    if b.len() == 0 {
        assert(a + b =~= a);
        assert(section_components(a) + section_components(b) =~= section_components(a));
    } else {
        assert((a + b).drop_last() =~= a + b.drop_last());
        assert((a + b).last() == b.last());
        lemma_section_components_concat(a, b.drop_last());
        assert(section_components(a) + section_components(b.drop_last()) + section_component(
            b.last(),
        ) =~= section_components(a) + (section_components(b.drop_last()) + section_component(
            b.last(),
        )));
    }
}

pub struct NextJSCompiler;

impl NextJSCompiler {
    pub fn new() -> Self {
        NextJSCompiler
    }
}

impl TargetCompiler for NextJSCompiler {
    open spec fn spec_target_name(&self) -> Seq<char> {
        "NextJS"@
    }

    open spec fn spec_extension(&self) -> Seq<char> {
        "tsx"@
    }

    open spec fn spec_generated(&self, program: ElemView) -> Seq<char> {
        "Next.js project files generated successfully"@
    }

    open spec fn spec_tree(&self, program: ElemView) -> Option<TreeView> {
        Some(nextjs_tree(program))
    }

    fn compile(&self, _ast: &Element) -> (r: Result<String, String>) {
        // The tree is produced by directory-mode compilation; this path
        // only reports it.
        Ok(String::from_str("Next.js project files generated successfully"))
    }

    fn target_name(&self) -> (r: &str) {
        "NextJS"
    }

    fn file_extension(&self) -> (r: &str) {
        "tsx"
    }

    fn compile_to_directory(&self, ast: &Element) -> (r: Option<ProjectTree>) {
        Some(self.create_nextjs_project(ast))
    }
}

impl NextJSCompiler {
    /// The full project tree for a program: the fixed directory layout,
    /// the fixed assets, and the generated main page.
    pub fn create_nextjs_project(&self, ast: &Element) -> (r: ProjectTree)
        ensures
            r@ == nextjs_tree(elem_view(*ast)),
    {
        let dirs = self.create_project_structure();
        let mut files: Vec<GeneratedFile> = Vec::new();
        files.push(self.create_package_json());
        files.push(self.create_pnpm_workspace());
        files.push(self.create_next_config());
        files.push(self.create_tailwind_config());
        files.push(self.create_postcss_config());
        files.push(self.create_typescript_config());
        let mut app_files = self.create_app_structure(ast);
        files.append(&mut app_files);
        let mut shadcn_files = self.create_shadcn_config();
        files.append(&mut shadcn_files);
        files.push(self.create_globals_css());
        let tree = ProjectTree { dirs, files };
        proof {
            assert(tree@.files =~= nextjs_files(elem_view(*ast)));
            assert(tree@ =~~= nextjs_tree(elem_view(*ast)));
        }
        tree
    }

    /// The fixed subdirectory layout.
    pub fn create_project_structure(&self) -> (r: Vec<String>)
        ensures
            r.deep_view() == nextjs_dirs(),
    {
        let mut dirs: Vec<String> = Vec::new();
        dirs.push(String::from_str("app"));
        dirs.push(String::from_str("app/api"));
        dirs.push(String::from_str("app/globals"));
        dirs.push(String::from_str("components"));
        dirs.push(String::from_str("components/ui"));
        dirs.push(String::from_str("lib"));
        dirs.push(String::from_str("public"));
        dirs.push(String::from_str("styles"));
        proof {
            assert(dirs.deep_view() =~= nextjs_dirs());
        }
        dirs
    }

    pub fn create_package_json(&self) -> (r: GeneratedFile)
        ensures
            r@ == ("package.json"@, NEXT_PACKAGE_JSON@),
    {
        GeneratedFile {
            path: String::from_str("package.json"),
            content: String::from_str(NEXT_PACKAGE_JSON),
        }
    }

    pub fn create_pnpm_workspace(&self) -> (r: GeneratedFile)
        ensures
            r@ == ("pnpm-workspace.yaml"@, NEXT_PNPM_WORKSPACE@),
    {
        GeneratedFile {
            path: String::from_str("pnpm-workspace.yaml"),
            content: String::from_str(NEXT_PNPM_WORKSPACE),
        }
    }

    pub fn create_next_config(&self) -> (r: GeneratedFile)
        ensures
            r@ == ("next.config.js"@, NEXT_CONFIG_JS@),
    {
        GeneratedFile {
            path: String::from_str("next.config.js"),
            content: String::from_str(NEXT_CONFIG_JS),
        }
    }

    pub fn create_tailwind_config(&self) -> (r: GeneratedFile)
        ensures
            r@ == ("tailwind.config.js"@, NEXT_TAILWIND_CONFIG@),
    {
        GeneratedFile {
            path: String::from_str("tailwind.config.js"),
            content: String::from_str(NEXT_TAILWIND_CONFIG),
        }
    }

    pub fn create_postcss_config(&self) -> (r: GeneratedFile)
        ensures
            r@ == ("postcss.config.js"@, NEXT_POSTCSS_CONFIG@),
    {
        GeneratedFile {
            path: String::from_str("postcss.config.js"),
            content: String::from_str(NEXT_POSTCSS_CONFIG),
        }
    }

    pub fn create_typescript_config(&self) -> (r: GeneratedFile)
        ensures
            r@ == ("tsconfig.json"@, NEXT_TSCONFIG@),
    {
        GeneratedFile {
            path: String::from_str("tsconfig.json"),
            content: String::from_str(NEXT_TSCONFIG),
        }
    }

    /// The application files: the fixed layout, the generated main page,
    /// and the fixed utilities module.
    pub fn create_app_structure(&self, ast: &Element) -> (r: Vec<GeneratedFile>)
        ensures
            r@.len() == 3,
            r@[0]@ == ("app/layout.tsx"@, NEXT_LAYOUT_TSX@),
            r@[1]@ == ("app/page.tsx"@, main_page_text(elem_view(*ast))),
            r@[2]@ == ("lib/utils.ts"@, NEXT_UTILS_TS@),
    {
        let mut files: Vec<GeneratedFile> = Vec::new();
        files.push(
            GeneratedFile {
                path: String::from_str("app/layout.tsx"),
                content: String::from_str(NEXT_LAYOUT_TSX),
            },
        );
        let page = match self.generate_main_page(ast) {
            Ok(s) => s,
            Err(_) => String::new(),
        };
        files.push(GeneratedFile { path: String::from_str("app/page.tsx"), content: page });
        files.push(self.create_utils());
        files
    }

    /// The generated main page: import lines for the sections that need
    /// them, the fixed page header, one rendered block per recognized
    /// section of each `next` declaration, and the fixed page footer.
    pub fn generate_main_page(&self, ast: &Element) -> (r: Result<String, String>)
        ensures
            r is Ok,
            r->Ok_0@ == main_page_text(elem_view(*ast)),
    {
        let ghost cs = elem_view(*ast).children;
        let mut imports: Vec<String> = Vec::new();
        let mut components: Vec<String> = Vec::new();
        let mut i: usize = 0;
        proof {
            assert(cs.take(0) =~= Seq::<NodeView>::empty());
            assert(imports.deep_view() =~= section_imports(next_sections(cs.take(0))));
            assert(components.deep_view() =~= section_components(next_sections(cs.take(0))));
        }
        while i < ast.children.len()
            invariant
                i <= ast.children@.len(),
                cs == elem_view(*ast).children,
                cs.len() == ast.children@.len(),
                imports.deep_view() == section_imports(next_sections(cs.take(i as int))),
                components.deep_view() == section_components(next_sections(cs.take(i as int))),
            decreases ast.children@.len() - i,
        {
            proof {
                assert(cs[i as int] == node_view(ast.children@[i as int]));
            }
            let ghost prev_sections = next_sections(cs.take(i as int));
            match &ast.children[i] {
                Node::Element(element) => {
                    let head = split_head(element.name.as_str(), ':');
                    if str_eq(head, "next") {
                        let ghost secs = elem_view(*element).children;
                        proof {
                            assert(next_children(cs[i as int]) == secs);
                            assert(secs.take(0) =~= Seq::<NodeView>::empty());
                            assert(imports.deep_view() =~= section_imports(prev_sections)
                                + section_imports(secs.take(0)));
                            assert(components.deep_view() =~= section_components(prev_sections)
                                + section_components(secs.take(0)));
                        }
                        let mut j: usize = 0;
                        while j < element.children.len()
                            invariant
                                j <= element.children@.len(),
                                secs == elem_view(*element).children,
                                secs.len() == element.children@.len(),
                                imports.deep_view() == section_imports(prev_sections)
                                    + section_imports(secs.take(j as int)),
                                components.deep_view() == section_components(prev_sections)
                                    + section_components(secs.take(j as int)),
                            decreases element.children@.len() - j,
                        {
                            proof {
                                assert(secs[j as int] == node_view(element.children@[j as int]));
                            }
                            let ghost imports_dv0 = imports.deep_view();
                            let ghost components_dv0 = components.deep_view();
                            match &element.children[j] {
                                Node::Element(section) => {
                                    proof {
                                        assert(secs[j as int] == NodeView::Element(
                                            elem_view(*section),
                                        ));
                                    }
                                    if str_eq(section.name.as_str(), "Routes") {
                                        imports.push(String::from_str(NEXT_IMPORT_BUTTON));
                                        components.push(self.generate_routes_section(section));
                                        proof {
                                            assert(section_import(secs[j as int])
                                                =~= seq![NEXT_IMPORT_BUTTON@]);
                                            assert(section_component(secs[j as int])
                                                =~= seq![NEXT_ROUTES_SECTION@]);
                                        }
                                    } else if str_eq(section.name.as_str(), "API") {
                                        components.push(self.generate_api_section(section));
                                        proof {
                                            assert(section_import(secs[j as int])
                                                =~= Seq::<Seq<char>>::empty());
                                            assert(section_component(secs[j as int])
                                                =~= seq![NEXT_API_SECTION@]);
                                        }
                                    } else if str_eq(section.name.as_str(), "Components") {
                                        components.push(self.generate_components_section(section));
                                        proof {
                                            assert(section_import(secs[j as int])
                                                =~= Seq::<Seq<char>>::empty());
                                            assert(section_component(secs[j as int])
                                                =~= seq![NEXT_COMPONENTS_SECTION@]);
                                        }
                                    } else {
                                        let placeholder = String::from_str(
                                            NEXT_UNKNOWN_SECTION_OPEN,
                                        ).concat(section.name.as_str()).concat(
                                            NEXT_UNKNOWN_SECTION_CLOSE,
                                        );
                                        proof {
                                            assert(section_import(secs[j as int])
                                                =~= Seq::<Seq<char>>::empty());
                                            assert(section_component(secs[j as int])
                                                =~= seq![
                                                NEXT_UNKNOWN_SECTION_OPEN@
                                                    + elem_view(*section).name
                                                    + NEXT_UNKNOWN_SECTION_CLOSE@,
                                            ]);
                                        }
                                        components.push(placeholder);
                                    }
                                },
                                _ => {
                                    proof {
                                        assert(section_import(secs[j as int])
                                            =~= Seq::<Seq<char>>::empty());
                                        assert(section_component(secs[j as int])
                                            =~= Seq::<Seq<char>>::empty());
                                    }
                                },
                            }
                            proof {
                                assert(imports.deep_view() =~= imports_dv0 + section_import(
                                    secs[j as int],
                                ));
                                assert(components.deep_view() =~= components_dv0
                                    + section_component(secs[j as int]));
                                assert(secs.take(j + 1).drop_last() =~= secs.take(j as int));
                                assert(secs.take(j + 1).last() == secs[j as int]);
                                assert(section_imports(secs.take(j + 1)) == section_imports(
                                    secs.take(j as int),
                                ) + section_import(secs[j as int]));
                                assert(section_components(secs.take(j + 1)) == section_components(
                                    secs.take(j as int),
                                ) + section_component(secs[j as int]));
                                assert(imports.deep_view() =~= section_imports(prev_sections)
                                    + section_imports(secs.take(j + 1)));
                                assert(components.deep_view() =~= section_components(prev_sections)
                                    + section_components(secs.take(j + 1)));
                            }
                            j = j + 1;
                        }
                        proof {
                            assert(secs.take(secs.len() as int) =~= secs);
                        }
                    }
                },
                _ => {},
            }
            proof {
                assert(cs.take(i + 1).drop_last() =~= cs.take(i as int));
                assert(cs.take(i + 1).last() == cs[i as int]);
                assert(next_sections(cs.take(i + 1)) == prev_sections + next_children(
                    cs[i as int],
                ));
                lemma_section_imports_concat(prev_sections, next_children(cs[i as int]));
                lemma_section_components_concat(prev_sections, next_children(cs[i as int]));
                assert(imports.deep_view() =~= section_imports(next_sections(cs.take(i + 1))));
                assert(components.deep_view() =~= section_components(
                    next_sections(cs.take(i + 1)),
                ));
            }
            i = i + 1;
        }
        proof {
            assert(cs.take(cs.len() as int) =~= cs);
        }
        let ghost sections = next_sections(cs);

        let mut page = String::new();

        if imports.len() > 0 {
            let mut k: usize = 0;
            proof {
                assert(imports.deep_view().take(0) =~= Seq::<Seq<char>>::empty());
                assert(page@ =~= cat_lines(imports.deep_view().take(0)));
            }
            while k < imports.len()
                invariant
                    k <= imports@.len(),
                    imports.deep_view() == section_imports(sections),
                    page@ == cat_lines(imports.deep_view().take(k as int)),
                decreases imports@.len() - k,
            {
                page.append(imports[k].as_str());
                page.append("\n");
                proof {
                    let dv = imports.deep_view();
                    assert(dv.take(k + 1).drop_last() =~= dv.take(k as int));
                    assert(dv.take(k + 1).last() == dv[k as int]);
                    assert(dv[k as int] == imports@[k as int]@);
                    assert(page@ =~= cat_lines(dv.take(k + 1)));
                }
                k = k + 1;
            }
            page.append("\n");
            proof {
                assert(imports.deep_view().take(imports@.len() as int) =~= imports.deep_view());
                assert(page@ =~= imports_block(section_imports(sections)));
            }
        } else {
            proof {
                assert(imports.deep_view().len() == 0);
                assert(page@ =~= imports_block(section_imports(sections)));
            }
        }

        page.append(NEXT_PAGE_HEADER);
        let ghost rendered_prefix = imports_block(section_imports(sections)) + NEXT_PAGE_HEADER@;
        proof {
            assert(components.deep_view().take(0) =~= Seq::<Seq<char>>::empty());
            assert(page@ =~= rendered_prefix + component_blocks(
                components.deep_view().take(0),
            ));
        }
        let mut k: usize = 0;
        while k < components.len()
            invariant
                k <= components@.len(),
                components.deep_view() == section_components(sections),
                page@ == rendered_prefix + component_blocks(components.deep_view().take(k as int)),
            decreases components@.len() - k,
        {
            page.append(NEXT_DIV_OPEN);
            page.append("          ");
            page.append(components[k].as_str());
            page.append("\n");
            page.append(NEXT_DIV_CLOSE);
            proof {
                let dv = components.deep_view();
                assert(dv.take(k + 1).drop_last() =~= dv.take(k as int));
                assert(dv.take(k + 1).last() == dv[k as int]);
                assert(dv[k as int] == components@[k as int]@);
                assert(page@ =~= rendered_prefix + component_blocks(dv.take(k + 1)));
            }
            k = k + 1;
        }
        page.append(NEXT_PAGE_FOOTER);
        proof {
            assert(components.deep_view().take(components@.len() as int) =~= components.deep_view());
            assert(page@ =~= main_page_text(elem_view(*ast)));
        }
        Ok(page)
    }

    /// The fixed block rendered for a `Routes` section.
    pub fn generate_routes_section(&self, _element: &Element) -> (r: String)
        ensures
            r@ == NEXT_ROUTES_SECTION@,
    {
        String::from_str(NEXT_ROUTES_SECTION)
    }

    /// The fixed block rendered for an `API` section.
    pub fn generate_api_section(&self, _element: &Element) -> (r: String)
        ensures
            r@ == NEXT_API_SECTION@,
    {
        String::from_str(NEXT_API_SECTION)
    }

    /// The fixed block rendered for a `Components` section.
    pub fn generate_components_section(&self, _element: &Element) -> (r: String)
        ensures
            r@ == NEXT_COMPONENTS_SECTION@,
    {
        String::from_str(NEXT_COMPONENTS_SECTION)
    }

    pub fn create_utils(&self) -> (r: GeneratedFile)
        ensures
            r@ == ("lib/utils.ts"@, NEXT_UTILS_TS@),
    {
        GeneratedFile {
            path: String::from_str("lib/utils.ts"),
            content: String::from_str(NEXT_UTILS_TS),
        }
    }

    /// The component-library configuration and the basic button component.
    pub fn create_shadcn_config(&self) -> (r: Vec<GeneratedFile>)
        ensures
            r@.len() == 2,
            r@[0]@ == ("components.json"@, NEXT_COMPONENTS_JSON@),
            r@[1]@ == ("components/ui/button.tsx"@, NEXT_BUTTON_TSX@),
    {
        let mut files: Vec<GeneratedFile> = Vec::new();
        files.push(
            GeneratedFile {
                path: String::from_str("components.json"),
                content: String::from_str(NEXT_COMPONENTS_JSON),
            },
        );
        files.push(self.create_button_component());
        files
    }

    pub fn create_button_component(&self) -> (r: GeneratedFile)
        ensures
            r@ == ("components/ui/button.tsx"@, NEXT_BUTTON_TSX@),
    {
        GeneratedFile {
            path: String::from_str("components/ui/button.tsx"),
            content: String::from_str(NEXT_BUTTON_TSX),
        }
    }

    pub fn create_globals_css(&self) -> (r: GeneratedFile)
        ensures
            r@ == ("app/globals.css"@, NEXT_GLOBALS_CSS@),
    {
        GeneratedFile {
            path: String::from_str("app/globals.css"),
            content: String::from_str(NEXT_GLOBALS_CSS),
        }
    }
}

} // verus!
